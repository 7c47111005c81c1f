//! Rendering a stored record as one line of text, as the `show` command
//! prints it.

use vstd::prelude::*;
use crate::entry::Entry;
use crate::entry::EntryModel;

verus! {

/// The ten decimal digit characters, in order.
pub open spec fn dec_digits() -> Seq<char> {
    seq!['0', '1', '2', '3', '4', '5', '6', '7', '8', '9']
}

/// The decimal rendering of a natural number: most significant digit first,
/// no sign, no leading zeros (zero itself is `0`).
pub open spec fn spec_decimal(n: nat) -> Seq<char>
    decreases n,
{
    if n < 10 {
        seq![dec_digits()[n as int]]
    } else {
        spec_decimal(n / 10).push(dec_digits()[(n % 10) as int])
    }
}

/// One decimal digit as text.
fn digit_str(d: u64) -> (s: &'static str)
    requires
        d < 10,
    ensures
        s@ == seq![dec_digits()[d as int]],
{
    proof {
        reveal_strlit("0");
        reveal_strlit("1");
        reveal_strlit("2");
        reveal_strlit("3");
        reveal_strlit("4");
        reveal_strlit("5");
        reveal_strlit("6");
        reveal_strlit("7");
        reveal_strlit("8");
        reveal_strlit("9");
    }
    let s: &'static str = if d == 0 {
        "0"
    } else if d == 1 {
        "1"
    } else if d == 2 {
        "2"
    } else if d == 3 {
        "3"
    } else if d == 4 {
        "4"
    } else if d == 5 {
        "5"
    } else if d == 6 {
        "6"
    } else if d == 7 {
        "7"
    } else if d == 8 {
        "8"
    } else {
        "9"
    };
    proof {
        assert(s@ =~= seq![dec_digits()[d as int]]);
    }
    s
}

/// The decimal text of a number, exactly [`spec_decimal`].
pub fn u64_to_string(n: u64) -> (s: String)
    ensures
        s@ == spec_decimal(n as nat),
    decreases n,
{
    if n < 10 {
        digit_str(n).to_owned()
    } else {
        let mut s = u64_to_string(n / 10);
        s.append(digit_str(n % 10));
        proof {
            assert(s@ =~= spec_decimal(n as nat));
        }
        s
    }
}

/// The line printed for one row: id, date, amount, project and description,
/// separated by single spaces.
pub open spec fn spec_entry_line(e: EntryModel, amount_text: Seq<char>) -> Seq<char> {
    spec_decimal(e.id as nat) + " "@ + e.date + " "@ + amount_text + " "@ + e.project + " "@
        + e.description
}

/// Renders one stored row as its printed line. The amount's text is handed
/// in by the caller, which alone can render the quantity its bits stand
/// for; the store only ever assigns non-negative ids, so none is expected
/// here.
pub fn entry_line(e: &Entry, amount_text: &str) -> (s: String)
    requires
        e.id >= 0,
    ensures
        s@ == spec_entry_line(e@, amount_text@),
{
    let mut s = u64_to_string(e.id as u64);
    s.append(" ");
    s.append(e.date.as_str());
    s.append(" ");
    s.append(amount_text);
    s.append(" ");
    s.append(e.project.as_str());
    s.append(" ");
    s.append(e.description.as_str());
    proof {
        assert(s@ =~= spec_entry_line(e@, amount_text@));
    }
    s
}

} // verus!
