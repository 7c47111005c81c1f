//! One timesheet record, and its mathematical model.

use vstd::prelude::*;

verus! {

/// The mathematical content of one record: the id the store assigned (zero
/// before insertion) and the four data fields. The amount is carried as the
/// IEEE-754 bit pattern of the recorded quantity; the library never computes
/// with the quantity, it only keeps it and hands it back, so the bits stand
/// for it exactly.
pub ghost struct EntryModel {
    pub id: int,
    pub date: Seq<char>,
    pub amount: u64,
    pub project: Seq<char>,
    pub description: Seq<char>,
}

/// One timesheet record: a calendar date as text, a recorded quantity
/// (as its IEEE-754 bit pattern), a project label and a free-text note,
/// together with the id the store assigned to it.
#[derive(Debug)]
pub struct Entry {
    pub id: i32,
    pub date: String,
    pub amount: u64,
    pub project: String,
    pub description: String,
}

impl View for Entry {
    type V = EntryModel;

    open spec fn view(&self) -> EntryModel {
        EntryModel {
            id: self.id as int,
            date: self.date@,
            amount: self.amount,
            project: self.project@,
            description: self.description@,
        }
    }
}

impl Entry {
    /// A record holding the given fields; its id is zero until the store
    /// assigns a real one on insert.
    pub fn new(date: &str, amount: u64, project: &str, description: &str) -> (e: Entry)
        ensures
            e@ == (EntryModel {
                id: 0,
                date: date@,
                amount,
                project: project@,
                description: description@,
            }),
    {
        Entry {
            id: 0,
            date: date.to_owned(),
            amount,
            project: project.to_owned(),
            description: description.to_owned(),
        }
    }
}

} // verus!
