use label_printer::{split_devices, DEVICE_SEPARATOR};

#[test]
fn split_drops_trailing_empty_entry() {
    assert_eq!(split_devices("USB001@USB002@"), vec!["USB001", "USB002"]);
}

#[test]
fn split_keeps_last_entry_without_separator() {
    assert_eq!(split_devices("COM1@COM2"), vec!["COM1", "COM2"]);
}

#[test]
fn split_empty_list() {
    assert_eq!(split_devices(""), Vec::<String>::new());
}

#[test]
fn split_single_entry() {
    assert_eq!(split_devices("192.168.1.20@"), vec!["192.168.1.20"]);
}

#[test]
fn split_keeps_inner_empty_entries() {
    assert_eq!(split_devices("@@"), vec!["", ""]);
    assert_eq!(split_devices("a@@b@"), vec!["a", "", "b"]);
}

#[test]
fn split_entries_hold_no_separator() {
    for e in split_devices("x@y@z@") {
        assert!(!e.contains(DEVICE_SEPARATOR));
    }
}

#[test]
fn split_non_ascii_entries() {
    assert_eq!(split_devices("打印机@é@"), vec!["打印机", "é"]);
}
