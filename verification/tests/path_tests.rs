use timesheet::db_file;
use timesheet::db_file_in;

#[test]
fn the_path_hangs_off_the_data_directory() {
    assert_eq!(
        db_file_in("/home/someone/.local/share"),
        "/home/someone/.local/share/com.tommyjl.rusty_tools/timesheet.db"
    );
}

#[test]
fn an_empty_data_directory_leaves_just_the_suffix() {
    assert_eq!(db_file_in(""), "/com.tommyjl.rusty_tools/timesheet.db");
}

#[test]
fn the_resolved_path_ends_with_the_fixed_suffix() {
    // Whether the platform defines a data directory depends on the
    // environment; when it does, the resolved path must end with the
    // tool's namespace and file name.
    if let Some(p) = db_file() {
        assert!(p.ends_with("/com.tommyjl.rusty_tools/timesheet.db"));
    }
}
