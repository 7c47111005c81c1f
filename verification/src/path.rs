//! Where the database file lives: the platform per-user data directory,
//! the tool's namespace directory, and the fixed file name.

use vstd::prelude::*;

verus! {

/// The fixed tail of the database path, appended to the platform data
/// directory: the tool's namespace directory and the database file name.
pub open spec fn spec_db_suffix() -> Seq<char> {
    "/com.tommyjl.rusty_tools/timesheet.db"@
}

/// Relies on `dirs::data_dir`: the platform per-user data directory, if the
/// platform defines one. The result depends on the environment alone, so
/// nothing is promised of it.
#[verifier::external_body]
fn platform_data_dir() -> (r: Option<String>) {
    dirs::data_dir().and_then(|p| p.to_str().map(String::from))
}

/// The database path under a given data directory.
pub fn db_file_in(data_dir: &str) -> (p: String)
    ensures
        p@ == data_dir@ + spec_db_suffix(),
{
    String::from_str(data_dir).concat("/com.tommyjl.rusty_tools/timesheet.db")
}

/// The resolved database path: the platform data directory with the fixed
/// suffix appended — or nothing, when the platform defines no data
/// directory, which callers must treat as fatal.
pub fn db_file() -> (r: Option<String>)
    ensures
        r matches Some(p) ==> exists|d: Seq<char>| p@ == #[trigger] (d + spec_db_suffix()),
{
    match platform_data_dir() {
        Some(dir) => {
            let p = db_file_in(dir.as_str());
            proof {
                assert(p@ == dir@ + spec_db_suffix());
            }
            Some(p)
        },
        None => None,
    }
}

} // verus!
