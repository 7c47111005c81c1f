use timesheet::create_table_sql;
use timesheet::insert_sql;
use timesheet::select_all_sql;

#[test]
fn the_schema_statement_is_fixed() {
    assert_eq!(
        create_table_sql(),
        "CREATE TABLE entry (\n    id INTEGER PRIMARY KEY AUTOINCREMENT,\n    date TEXT,\n    amount REAL,\n    project TEXT,\n    description TEXT\n);"
    );
}

#[test]
fn the_insert_statement_binds_the_four_data_fields() {
    assert_eq!(
        insert_sql(),
        "INSERT INTO entry (date, amount, project, description) VALUES (?1, ?2, ?3, ?4)"
    );
}

#[test]
fn the_select_statement_reads_every_column() {
    assert_eq!(select_all_sql(), "SELECT id, date, amount, project, description FROM entry");
}
