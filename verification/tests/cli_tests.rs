use timesheet::Command;
use timesheet::fixed_entry;
use timesheet::parse_command;

#[test]
fn add_is_recognized() {
    assert_eq!(parse_command("add"), Some(Command::Add));
}

#[test]
fn show_is_recognized() {
    assert_eq!(parse_command("show"), Some(Command::Show));
}

#[test]
fn anything_else_is_a_usage_error() {
    assert_eq!(parse_command(""), None);
    assert_eq!(parse_command("Add"), None);
    assert_eq!(parse_command("delete"), None);
    assert_eq!(parse_command("add "), None);
    assert_eq!(parse_command("shown"), None);
}

#[test]
fn the_fixed_record_matches_the_known_literals() {
    let e = fixed_entry();
    assert_eq!(e.id, 0);
    assert_eq!(e.date, "2021-01-01");
    assert_eq!(e.amount, (1.0f64).to_bits());
    assert_eq!(e.project, "in:admin");
    assert_eq!(e.description, "standup");
}
