use timesheet::Entry;
use timesheet::entry_line;
use timesheet::u64_to_string;

#[test]
fn single_digits() {
    assert_eq!(u64_to_string(0), "0");
    assert_eq!(u64_to_string(7), "7");
    assert_eq!(u64_to_string(9), "9");
}

#[test]
fn multiple_digits() {
    assert_eq!(u64_to_string(10), "10");
    assert_eq!(u64_to_string(907), "907");
    assert_eq!(u64_to_string(100000), "100000");
    assert_eq!(u64_to_string(u64::MAX), "18446744073709551615");
}

#[test]
fn a_row_prints_as_one_line() {
    let e = Entry {
        id: 12,
        date: String::from("2021-01-01"),
        amount: (1.0f64).to_bits(),
        project: String::from("in:admin"),
        description: String::from("standup"),
    };
    let line = entry_line(&e, "1.0");
    assert_eq!(line, "12 2021-01-01 1.0 in:admin standup");
}

#[test]
fn a_fresh_record_prints_with_id_zero() {
    let e = Entry::new("2022-12-24", (0.5f64).to_bits(), "in:dev", "release prep");
    let line = entry_line(&e, "0.5");
    assert_eq!(line, "0 2022-12-24 0.5 in:dev release prep");
}
