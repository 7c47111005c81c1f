//! The SQL the storage accessor issues over its one table. The statements
//! are fixed; these functions pin their exact text, so that what reaches
//! the embedded store is stated in one place.

use vstd::prelude::*;

verus! {

/// The statement that creates the `entry` table. It is run exactly once,
/// when the database file is first created.
pub fn create_table_sql() -> (s: &'static str)
    ensures
        s@
            == "CREATE TABLE entry (\n    id INTEGER PRIMARY KEY AUTOINCREMENT,\n    date TEXT,\n    amount REAL,\n    project TEXT,\n    description TEXT\n);"@,
{
    "CREATE TABLE entry (\n    id INTEGER PRIMARY KEY AUTOINCREMENT,\n    date TEXT,\n    amount REAL,\n    project TEXT,\n    description TEXT\n);"
}

/// The statement that appends one row: the four data fields are bound as
/// parameters, and the store assigns the id.
pub fn insert_sql() -> (s: &'static str)
    ensures
        s@ == "INSERT INTO entry (date, amount, project, description) VALUES (?1, ?2, ?3, ?4)"@,
{
    "INSERT INTO entry (date, amount, project, description) VALUES (?1, ?2, ?3, ?4)"
}

/// The statement that reads every row back. No ordering clause: the store
/// returns rows as they were inserted, which [`crate::store`] relies on.
pub fn select_all_sql() -> (s: &'static str)
    ensures
        s@ == "SELECT id, date, amount, project, description FROM entry"@,
{
    "SELECT id, date, amount, project, description FROM entry"
}

} // verus!
