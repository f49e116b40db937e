use s3_bulk_move::record::format_record;

#[test]
fn record_is_key_tab_size() {
    assert_eq!(format_record("archive/2020/x.log", 42), "archive/2020/x.log\t42");
}

#[test]
fn record_zero_size() {
    assert_eq!(format_record("k", 0), "k\t0");
}

#[test]
fn record_largest_size() {
    assert_eq!(format_record("k", i64::MAX), "k\t9223372036854775807");
}

#[test]
fn record_negative_size() {
    assert_eq!(format_record("k", -5), "k\t-5");
    assert_eq!(format_record("k", i64::MIN), "k\t-9223372036854775808");
}

#[test]
fn record_empty_key() {
    assert_eq!(format_record("", 7), "\t7");
}
