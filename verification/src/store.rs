//! The storage accessor's `entry` table, stated mathematically and proved:
//! what the embedded store does to the table when rows are only ever
//! appended, which is the only way this tool writes it.

use vstd::prelude::*;
use crate::entry::Entry;
use crate::entry::EntryModel;

verus! {

/// The rows a sequence of records denotes.
pub open spec fn rows_of(s: Seq<Entry>) -> Seq<EntryModel> {
    s.map_values(|e: Entry| e@)
}

/// Well-formed table contents: ids are assigned by position, starting at 1.
/// An auto-incrementing key degenerates to exactly this when rows are only
/// ever appended: every id is unique, strictly increasing, and the next one
/// to be assigned is `len + 1`.
pub open spec fn wf_rows(rows: Seq<EntryModel>) -> bool {
    forall|i: int| 0 <= i < rows.len() ==> (#[trigger] rows[i]).id == i + 1
}

/// The table after one insert of the given data fields: one new row at the
/// end, its id freshly assigned as the next in line. The id the inserted
/// record carried is ignored; the store alone assigns ids.
pub open spec fn spec_insert(
    rows: Seq<EntryModel>,
    date: Seq<char>,
    amount: u64,
    project: Seq<char>,
    description: Seq<char>,
) -> Seq<EntryModel> {
    rows.push(
        EntryModel { id: rows.len() as int + 1, date, amount, project, description },
    )
}

/// Whether opening the store at a path sets up the `entry` table: exactly
/// when no database file existed at that path before the open.
pub open spec fn spec_creates_schema(file_existed: bool) -> bool {
    !file_existed
}

/// Decides, on open, whether the schema must be created. The table is set
/// up exactly once, when the database file is first created; opening an
/// existing file leaves the schema alone.
pub fn creates_schema(file_existed: bool) -> (create: bool)
    ensures
        create == spec_creates_schema(file_existed),
{
    !file_existed
}

/// The entry table itself: the records in insertion order. Constructed
/// empty, grown one row per insert, read back whole.
pub struct Database {
    entries: Vec<Entry>,
}

impl Database {
    /// The rows the table holds, in order.
    pub closed spec fn rows(&self) -> Seq<EntryModel> {
        rows_of(self.entries@)
    }

    /// The table's invariant: see [`wf_rows`].
    pub open spec fn wf(&self) -> bool {
        wf_rows(self.rows())
    }

    /// A freshly bootstrapped store: the table exists and holds no rows.
    pub fn init() -> (db: Database)
        ensures
            db.rows() == Seq::<EntryModel>::empty(),
            db.wf(),
    {
        let db = Database { entries: Vec::new() };
        proof {
            assert(db.rows() =~= Seq::<EntryModel>::empty());
        }
        db
    }

    /// Appends one row holding the record's data fields. The store assigns
    /// the id — the next integer in line — and returns it; the id field of
    /// the given record plays no part.
    pub fn insert(&mut self, entry: &Entry) -> (id: i32)
        requires
            old(self).wf(),
            old(self).rows().len() < i32::MAX,
        ensures
            final(self).rows() == spec_insert(
                old(self).rows(),
                entry.date@,
                entry.amount,
                entry.project@,
                entry.description@,
            ),
            final(self).wf(),
            id == old(self).rows().len() + 1,
    {
        let id: i32 = (self.entries.len() as i32) + 1;
        let stored = Entry {
            id,
            date: entry.date.clone(),
            amount: entry.amount,
            project: entry.project.clone(),
            description: entry.description.clone(),
        };
        self.entries.push(stored);
        proof {
            assert(self.rows() =~= spec_insert(
                old(self).rows(),
                entry.date@,
                entry.amount,
                entry.project@,
                entry.description@,
            ));
            lemma_insert_preserves_wf(
                old(self).rows(),
                entry.date@,
                entry.amount,
                entry.project@,
                entry.description@,
            );
        }
        id
    }

    /// A snapshot of every stored row, decoded into fresh records, in the
    /// order the table holds them — insertion order.
    pub fn get_all(&self) -> (out: Vec<Entry>)
        ensures
            rows_of(out@) == self.rows(),
            out@.len() == self.rows().len(),
    {
        let mut out: Vec<Entry> = Vec::new();
        let mut i: usize = 0;
        while i < self.entries.len()
            invariant
                i <= self.entries@.len(),
                out@.len() == i,
                rows_of(out@) == self.rows().take(i as int),
            decreases self.entries@.len() - i,
        {
            let ghost prev = out@;
            let e = &self.entries[i];
            out.push(Entry {
                id: e.id,
                date: e.date.clone(),
                amount: e.amount,
                project: e.project.clone(),
                description: e.description.clone(),
            });
            i = i + 1;
            proof {
                assert forall|j: int| 0 <= j < i as int implies rows_of(out@)[j]
                    == self.rows()[j] by {
                    assert(rows_of(out@)[j] == out@[j]@);
                    if j < i as int - 1 {
                        assert(out@[j] == prev[j]);
                        assert(rows_of(prev)[j] == prev[j]@);
                        assert(rows_of(prev)[j] == self.rows().take(i as int - 1)[j]);
                    } else {
                        assert(out@[j]@ == self.entries@[j]@);
                        assert(self.rows()[j] == self.entries@[j]@);
                    }
                }
                assert(rows_of(out@) =~= self.rows().take(i as int));
            }
        }
        proof {
            assert(self.rows().take(i as int) =~= self.rows());
        }
        out
    }
}

/// Appending through [`spec_insert`] keeps the contents well formed: the
/// new row takes the next id in line, every other row keeps its own.
pub proof fn lemma_insert_preserves_wf(
    rows: Seq<EntryModel>,
    date: Seq<char>,
    amount: u64,
    project: Seq<char>,
    description: Seq<char>,
)
    requires
        wf_rows(rows),
    ensures
        wf_rows(spec_insert(rows, date, amount, project, description)),
{
}

/// Idempotent initialization: opening the store a second time at the same
/// path finds the database file already present, so the schema step is not
/// run again — the `entry` table is never recreated or dropped.
pub proof fn lemma_init_idempotent()
    ensures
        !spec_creates_schema(true),
{
}

/// Fresh-store bootstrap: opening a path with no database file creates the
/// schema, and the table then holds no rows, so the first read returns the
/// empty sequence ([`Database::init`] and [`Database::get_all`] say the
/// rest).
pub proof fn lemma_fresh_bootstrap()
    ensures
        spec_creates_schema(false),
        wf_rows(Seq::<EntryModel>::empty()),
{
}

/// Insert-retrieve round trip: one insert into well-formed contents appends
/// exactly one row; its data fields equal the inserted values, and its id
/// was assigned fresh — no earlier row carries it.
pub proof fn lemma_insert_round_trip(
    rows: Seq<EntryModel>,
    date: Seq<char>,
    amount: u64,
    project: Seq<char>,
    description: Seq<char>,
)
    requires
        wf_rows(rows),
    ensures
        ({
            let after = spec_insert(rows, date, amount, project, description);
            &&& after.len() == rows.len() + 1
            &&& after.last().date == date
            &&& after.last().amount == amount
            &&& after.last().project == project
            &&& after.last().description == description
            &&& forall|i: int| 0 <= i < rows.len() ==> (#[trigger] after[i]).id != after.last().id
        }),
{
    let after = spec_insert(rows, date, amount, project, description);
    assert forall|i: int| 0 <= i < rows.len() implies (#[trigger] after[i]).id != after.last().id by {
        assert(after[i] == rows[i]);
    }
}

/// Monotonic id assignment: in well-formed contents the ids strictly
/// increase with position, so N sequential inserts are assigned strictly
/// increasing — in particular pairwise distinct — ids.
pub proof fn lemma_ids_strictly_increasing(rows: Seq<EntryModel>)
    requires
        wf_rows(rows),
    ensures
        forall|i: int, j: int| 0 <= i < j < rows.len() ==> rows[i].id < rows[j].id,
{
    assert forall|i: int, j: int| 0 <= i < j < rows.len() implies rows[i].id < rows[j].id by {
        assert(rows[i].id == i + 1);
        assert(rows[j].id == j + 1);
    }
}

/// Order preservation: an insert moves no existing row — every row keeps
/// its position, so reads keep returning rows in insertion order.
pub proof fn lemma_insert_preserves_order(
    rows: Seq<EntryModel>,
    date: Seq<char>,
    amount: u64,
    project: Seq<char>,
    description: Seq<char>,
)
    ensures
        forall|i: int| 0 <= i < rows.len()
            ==> #[trigger] spec_insert(rows, date, amount, project, description)[i] == rows[i],
{
}

} // verus!
