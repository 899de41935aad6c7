use cfscan::scan::ScanError;
use cfscan::store::{scan_db, scan_db_checked, Family, Store};

fn family(name: &str, records: &[(&[u8], &[u8])]) -> Family {
    Family {
        name: name.to_string(),
        records: records.iter().map(|(key, value)| (key.to_vec(), value.to_vec())).collect(),
        read_error: None,
    }
}

fn failing(name: &str, records: &[(&[u8], &[u8])], message: &str) -> Family {
    Family { read_error: Some(message.to_string()), ..family(name, records) }
}

#[test]
fn a_store_without_families_prints_announcement_and_zero_totals() {
    let report = scan_db(&Store::Opened(vec![]));
    assert!(matches!(report.outcome, Ok(())));
    assert_eq!(
        report.output().join("\n"),
        "scanning \ntotal records: 0\ntotal key size: 0\ntotal value size: 0"
    );
    assert_eq!(report.lines, report.output());
}

#[test]
fn a_single_empty_family_reports_zeros_twice() {
    let report = scan_db(&Store::Opened(vec![family("default", &[])]));
    assert!(matches!(report.outcome, Ok(())));
    assert_eq!(
        report.lines,
        vec![
            "scanning default",
            "default: records: 0, key size: 0, value size: 0",
            "total records: 0",
            "total key size: 0",
            "total value size: 0",
        ]
    );
}

#[test]
fn three_records_are_summed_by_length() {
    let records: [(&[u8], &[u8]); 3] = [(b"a", b"x"), (b"bb", b"xy"), (b"ccc", b"xyz")];
    let report = scan_db(&Store::Opened(vec![family("default", &records)]));
    assert_eq!(report.lines[1], "default: records: 3, key size: 6, value size: 6");
    assert_eq!(
        &report.lines[2..],
        &["total records: 3", "total key size: 6", "total value size: 6"]
    );
}

#[test]
fn totals_are_the_sums_of_the_family_counters() {
    let first: [(&[u8], &[u8]); 2] = [(b"k1", b"value-1"), (b"k2", b"value-22")];
    let second: [(&[u8], &[u8]); 3] = [(b"", b"v"), (b"longer-key", b""), (b"x", b"y")];
    let third: [(&[u8], &[u8]); 1] = [(b"0123456789abcdef", b"0123456789abcdef0123456789abcdef")];
    let report = scan_db(&Store::Opened(vec![
        family("default", &first),
        family("meta", &second),
        family("empty", &[]),
        family("blobs", &third),
    ]));
    assert!(matches!(report.outcome, Ok(())));
    assert_eq!(
        report.lines,
        vec![
            "scanning default, meta, empty, blobs",
            "default: records: 2, key size: 4, value size: 15",
            "meta: records: 3, key size: 11, value size: 2",
            "empty: records: 0, key size: 0, value size: 0",
            "blobs: records: 1, key size: 16, value size: 32",
            "total records: 6",
            "total key size: 31",
            "total value size: 49",
        ]
    );
}

#[test]
fn families_keep_the_order_of_the_listing() {
    let report = scan_db(&Store::Opened(vec![
        family("zeta", &[]),
        family("alpha", &[]),
        family("mid", &[]),
    ]));
    assert_eq!(report.lines[0], "scanning zeta, alpha, mid");
    assert!(report.lines[1].starts_with("zeta: "));
    assert!(report.lines[2].starts_with("alpha: "));
    assert!(report.lines[3].starts_with("mid: "));
}

#[test]
fn scanning_twice_gives_the_same_output() {
    let records: [(&[u8], &[u8]); 2] = [(b"a", b"1"), (b"b", b"22")];
    let store = Store::Opened(vec![
        family("default", &records),
        failing("broken", &records, "Corruption: bad block"),
        family("later", &records),
    ]);
    let first = scan_db(&store);
    let second = scan_db(&store);
    assert_eq!(first.lines, second.lines);
    assert_eq!(first.output(), second.output());
    assert!(matches!(first.outcome, Err(ScanError::Read(_))));
    assert!(matches!(second.outcome, Err(ScanError::Read(_))));
}

#[test]
fn a_read_error_stops_the_scan_before_the_family_summary() {
    let one: [(&[u8], &[u8]); 1] = [(b"key", b"value")];
    let two: [(&[u8], &[u8]); 2] = [(b"k1", b"v1"), (b"k2", b"v2")];
    let report = scan_db(&Store::Opened(vec![
        family("first", &one),
        family("second", &two),
        failing("third", &two, "Corruption: block checksum mismatch"),
        family("fourth", &one),
    ]));
    assert!(matches!(
        report.outcome,
        Err(ScanError::Read(ref message)) if message == "Corruption: block checksum mismatch"
    ));
    assert_eq!(
        report.lines,
        vec![
            "scanning first, second, third, fourth",
            "first: records: 1, key size: 3, value size: 5",
            "second: records: 2, key size: 4, value size: 4",
        ]
    );
    assert_eq!(
        report.output(),
        vec![
            "scanning first, second, third, fourth",
            "first: records: 1, key size: 3, value size: 5",
            "second: records: 2, key size: 4, value size: 4",
            "SCAN FAILED: Corruption: block checksum mismatch",
        ]
    );
}

#[test]
fn a_read_error_in_the_first_family_leaves_only_the_announcement() {
    let report = scan_db(&Store::Opened(vec![
        failing("first", &[], "IO error: read failed"),
        family("second", &[]),
    ]));
    assert_eq!(report.output(), vec!["scanning first, second", "SCAN FAILED: IO error: read failed"]);
}

#[test]
fn a_read_error_in_the_last_family_prints_no_totals() {
    let one: [(&[u8], &[u8]); 1] = [(b"key", b"value")];
    let report = scan_db(&Store::Opened(vec![
        family("first", &one),
        failing("last", &one, "Corruption"),
    ]));
    let output = report.output();
    assert_eq!(
        output,
        vec![
            "scanning first, last",
            "first: records: 1, key size: 3, value size: 5",
            "SCAN FAILED: Corruption",
        ]
    );
    assert!(output.iter().all(|line| !line.starts_with("total ")));
}

#[test]
fn only_the_first_read_error_is_reported() {
    let report = scan_db(&Store::Opened(vec![
        family("a", &[]),
        failing("b", &[], "first failure"),
        failing("c", &[], "second failure"),
    ]));
    assert!(matches!(
        report.outcome,
        Err(ScanError::Read(ref message)) if message == "first failure"
    ));
    assert_eq!(report.output().last().unwrap(), "SCAN FAILED: first failure");
}

#[test]
fn the_output_of_a_failed_scan_does_not_depend_on_what_was_read_before_the_error() {
    let none: [(&[u8], &[u8]); 0] = [];
    let some: [(&[u8], &[u8]); 3] = [(b"a", b"1"), (b"b", b"2"), (b"c", b"3")];
    let short = scan_db(&Store::Opened(vec![family("ok", &some), failing("bad", &none, "boom")]));
    let long = scan_db(&Store::Opened(vec![family("ok", &some), failing("bad", &some, "boom")]));
    assert_eq!(short.output(), long.output());
}

#[test]
fn a_store_that_cannot_be_listed_prints_only_the_failure() {
    let report = scan_db(&Store::Unlisted("IO error: No such file or directory".to_string()));
    assert!(report.lines.is_empty());
    assert!(matches!(
        report.outcome,
        Err(ScanError::Open(ref message)) if message == "IO error: No such file or directory"
    ));
    assert_eq!(report.output(), vec!["SCAN FAILED: IO error: No such file or directory"]);
}

#[test]
fn a_store_that_cannot_be_opened_prints_announcement_and_failure() {
    let report = scan_db(&Store::Unopened(
        vec!["default".to_string(), "meta".to_string()],
        "Invalid argument: column families not opened".to_string(),
    ));
    assert!(matches!(report.outcome, Err(ScanError::Open(_))));
    assert_eq!(
        report.output(),
        vec![
            "scanning default, meta",
            "SCAN FAILED: Invalid argument: column families not opened",
        ]
    );
}

#[test]
fn large_values_are_counted_in_full() {
    let key = vec![7u8; 300];
    let value = vec![9u8; 70_000];
    let store = Store::Opened(vec![Family {
        name: "big".to_string(),
        records: vec![(key.clone(), value.clone()), (key, value)],
        read_error: None,
    }]);
    let report = scan_db(&store);
    assert_eq!(report.lines[1], "big: records: 2, key size: 600, value size: 140000");
    assert_eq!(report.lines[3], "total key size: 600");
    assert_eq!(report.lines[4], "total value size: 140000");
}

#[test]
fn the_checked_scan_gives_the_same_report() {
    let records: [(&[u8], &[u8]); 2] = [(b"a", b"1"), (b"bb", b"22")];
    let store = Store::Opened(vec![family("default", &records), family("meta", &[])]);
    let plain = scan_db(&store);
    let checked = scan_db_checked(&store).unwrap();
    assert_eq!(plain.lines, checked.lines);
    assert_eq!(
        checked.lines,
        vec![
            "scanning default, meta",
            "default: records: 2, key size: 3, value size: 3",
            "meta: records: 0, key size: 0, value size: 0",
            "total records: 2",
            "total key size: 3",
            "total value size: 3",
        ]
    );
    assert!(matches!(checked.outcome, Ok(())));
}

#[test]
fn the_checked_scan_reports_failures_too() {
    let listed = scan_db_checked(&Store::Unlisted("no such store".to_string())).unwrap();
    assert_eq!(listed.output(), vec!["SCAN FAILED: no such store"]);
    let read = scan_db_checked(&Store::Opened(vec![failing("cf", &[], "bad read")])).unwrap();
    assert_eq!(read.output(), vec!["scanning cf", "SCAN FAILED: bad read"]);
    assert!(matches!(read.outcome, Err(ScanError::Read(ref message)) if message == "bad read"));
}
