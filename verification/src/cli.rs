//! The command dispatcher's decision: which of the two operations an
//! invocation asks for.

use vstd::prelude::*;
use crate::entry::Entry;
use crate::entry::EntryModel;

verus! {

/// The bit pattern of the quantity one: the fixed amount the `add` command
/// records.
pub const FIXED_AMOUNT_BITS: u64 = 0x3FF0000000000000;

/// The two operations the tool offers: append one entry, or list all of them.
#[derive(Clone, Copy, Debug, PartialEq, Eq, Structural)]
pub enum Command {
    Add,
    Show,
}

/// Maps a subcommand word to the operation it names: exactly `"add"` and
/// `"show"` are accepted; anything else is a usage error, reported as `None`.
pub fn parse_command(arg: &str) -> (r: Option<Command>)
    ensures
        r == Some(Command::Add) <==> arg@ == "add"@,
        r == Some(Command::Show) <==> arg@ == "show"@,
        r is None <==> (arg@ != "add"@ && arg@ != "show"@),
{
    proof {
        reveal_strlit("add");
        reveal_strlit("show");
        // The two words differ already in length, so no argument matches both.
        assert("add"@.len() == 3);
        assert("show"@.len() == 4);
    }
    let s = arg.to_owned();
    if s == String::from_str("add") {
        Some(Command::Add)
    } else if s == String::from_str("show") {
        Some(Command::Show)
    } else {
        None
    }
}

/// The fixed record the `add` command appends. The tool takes no field
/// input yet, so every `add` logs the same date, amount, project tag and
/// note; the store still assigns each copy its own id.
pub fn fixed_entry() -> (e: Entry)
    ensures
        e@ == (EntryModel {
            id: 0,
            date: "2021-01-01"@,
            amount: FIXED_AMOUNT_BITS,
            project: "in:admin"@,
            description: "standup"@,
        }),
{
    Entry::new("2021-01-01", FIXED_AMOUNT_BITS, "in:admin", "standup")
}

} // verus!
