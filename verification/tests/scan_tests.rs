use cfscan::scan::{Phase, ScanError, Scanner};

fn listing(list: &[&str]) -> Vec<String> {
    list.iter().map(|name| name.to_string()).collect()
}

#[test]
fn a_new_scan_waits_for_the_listing() {
    let scanner = Scanner::new();
    assert_eq!(scanner.phase(), Phase::Listing);
}

#[test]
fn listing_gives_the_announcement_and_waits_for_the_opening() {
    let mut scanner = Scanner::new();
    let line = scanner.listed(listing(&["default", "meta"]));
    assert_eq!(line, "scanning default, meta");
    assert_eq!(scanner.phase(), Phase::Opening);
}

#[test]
fn a_failed_listing_ends_the_scan_with_an_open_error() {
    let mut scanner = Scanner::new();
    scanner.list_failed("IO error: no such directory".to_string());
    assert_eq!(scanner.phase(), Phase::Finished);
    assert!(matches!(
        scanner.outcome(),
        Err(ScanError::Open(ref message)) if message == "IO error: no such directory"
    ));
}

#[test]
fn a_failed_opening_ends_the_scan_with_an_open_error() {
    let mut scanner = Scanner::new();
    scanner.listed(listing(&["default"]));
    scanner.open_failed("Invalid argument: column family mismatch".to_string());
    assert_eq!(scanner.phase(), Phase::Finished);
    assert!(matches!(
        scanner.outcome(),
        Err(ScanError::Open(ref message)) if message == "Invalid argument: column family mismatch"
    ));
}

#[test]
fn opening_a_store_without_families_gives_the_totals_at_once() {
    let mut scanner = Scanner::new();
    assert_eq!(scanner.listed(listing(&[])), "scanning ");
    let lines = scanner.opened();
    assert_eq!(lines, vec!["total records: 0", "total key size: 0", "total value size: 0"]);
    assert_eq!(scanner.phase(), Phase::Finished);
    assert!(matches!(scanner.outcome(), Ok(())));
}

#[test]
fn opening_a_store_with_families_turns_to_the_first_one() {
    let mut scanner = Scanner::new();
    scanner.listed(listing(&["first", "second"]));
    let lines = scanner.opened();
    assert!(lines.is_empty());
    assert_eq!(scanner.phase(), Phase::Reading);
    assert_eq!(scanner.family(), "first");
}

#[test]
fn families_are_read_in_the_order_of_the_listing() {
    let mut scanner = Scanner::new();
    scanner.listed(listing(&["zeta", "alpha", "mid"]));
    scanner.opened();
    assert_eq!(scanner.family(), "zeta");
    scanner.end_of_family();
    assert_eq!(scanner.family(), "alpha");
    scanner.end_of_family();
    assert_eq!(scanner.family(), "mid");
    scanner.end_of_family();
    assert_eq!(scanner.phase(), Phase::Finished);
}

#[test]
fn the_end_of_a_family_gives_its_summary() {
    let mut scanner = Scanner::new();
    scanner.listed(listing(&["default", "other"]));
    scanner.opened();
    scanner.entry(b"a", b"1");
    scanner.entry(b"bb", b"22");
    scanner.entry(b"ccc", b"333");
    let lines = scanner.end_of_family();
    assert_eq!(lines, vec!["default: records: 3, key size: 6, value size: 6"]);
    assert_eq!(scanner.phase(), Phase::Reading);
    assert_eq!(scanner.family(), "other");
}

#[test]
fn the_end_of_the_last_family_gives_summary_and_totals() {
    let mut scanner = Scanner::new();
    scanner.listed(listing(&["default", "other"]));
    scanner.opened();
    scanner.entry(b"a", b"1");
    scanner.entry(b"bb", b"22");
    scanner.end_of_family();
    scanner.entry(b"key", b"a longer value");
    let lines = scanner.end_of_family();
    assert_eq!(
        lines,
        vec![
            "other: records: 1, key size: 3, value size: 14",
            "total records: 3",
            "total key size: 6",
            "total value size: 17",
        ]
    );
    assert_eq!(scanner.phase(), Phase::Finished);
    assert!(matches!(scanner.outcome(), Ok(())));
}

#[test]
fn each_family_starts_from_zero() {
    let mut scanner = Scanner::new();
    scanner.listed(listing(&["a", "b"]));
    scanner.opened();
    scanner.entry(b"0123456789", b"x");
    scanner.end_of_family();
    let lines = scanner.end_of_family();
    assert_eq!(lines[0], "b: records: 0, key size: 0, value size: 0");
    assert_eq!(lines[1], "total records: 1");
    assert_eq!(lines[2], "total key size: 10");
    assert_eq!(lines[3], "total value size: 1");
}

#[test]
fn a_read_error_ends_the_scan_without_a_line() {
    let mut scanner = Scanner::new();
    scanner.listed(listing(&["a", "b", "c"]));
    scanner.opened();
    scanner.entry(b"k", b"v");
    scanner.end_of_family();
    scanner.entry(b"k1", b"v1");
    scanner.entry(b"k2", b"v2");
    scanner.read_failed("Corruption: block checksum mismatch".to_string());
    assert_eq!(scanner.phase(), Phase::Finished);
    assert!(matches!(
        scanner.outcome(),
        Err(ScanError::Read(ref message)) if message == "Corruption: block checksum mismatch"
    ));
}

#[test]
fn a_read_error_before_the_first_record_ends_the_scan() {
    let mut scanner = Scanner::new();
    scanner.listed(listing(&["only"]));
    scanner.opened();
    scanner.read_failed("IO error".to_string());
    assert_eq!(scanner.phase(), Phase::Finished);
    assert!(matches!(scanner.outcome(), Err(ScanError::Read(_))));
}

#[test]
fn there_is_room_for_ordinary_records() {
    let mut scanner = Scanner::new();
    scanner.listed(listing(&["a"]));
    scanner.opened();
    assert!(scanner.has_room(b"key", b"value"));
    scanner.entry(b"key", b"value");
    assert!(scanner.has_room(&[0u8; 4096], &[0u8; 65536]));
}

#[test]
fn the_message_of_an_error_is_the_stores_own() {
    assert_eq!(ScanError::Open("cannot open".to_string()).message(), "cannot open");
    assert_eq!(ScanError::Read("cannot read".to_string()).message(), "cannot read");
    assert_eq!(ScanError::Read(String::new()).message(), "");
}

#[test]
fn many_records_are_counted_one_by_one() {
    let mut scanner = Scanner::new();
    scanner.listed(listing(&["bulk"]));
    scanner.opened();
    let mut keys: u64 = 0;
    let mut values: u64 = 0;
    for i in 0..1000usize {
        let key = vec![1u8; i % 17];
        let value = vec![2u8; i % 101];
        keys += key.len() as u64;
        values += value.len() as u64;
        scanner.entry(&key, &value);
    }
    let lines = scanner.end_of_family();
    assert_eq!(
        lines[0],
        format!("bulk: records: 1000, key size: {}, value size: {}", keys, values)
    );
    assert_eq!(lines[1], "total records: 1000");
    assert_eq!(lines[2], format!("total key size: {}", keys));
    assert_eq!(lines[3], format!("total value size: {}", values));
}
