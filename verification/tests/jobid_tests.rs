use lotto::jobid::{dec_string, format_job_id, parse_job_id};

#[test]
fn format_writes_prefix_and_decimal() {
    assert_eq!(format_job_id(1), "lotto-1");
    assert_eq!(format_job_id(0), "lotto-0");
    assert_eq!(format_job_id(42), "lotto-42");
    assert_eq!(format_job_id(4294967295), "lotto-4294967295");
}

#[test]
fn dec_string_writes_canonical_decimal() {
    assert_eq!(dec_string(0), "0");
    assert_eq!(dec_string(7), "7");
    assert_eq!(dec_string(10), "10");
    assert_eq!(dec_string(305441741), "305441741");
}

#[test]
fn parse_round_trips_every_formatted_id() {
    for n in [0u32, 1, 9, 10, 99, 100, 12345, 4294967295] {
        assert_eq!(parse_job_id(&format_job_id(n)), Some(n));
    }
}

#[test]
fn parse_rejects_foreign_shapes() {
    assert_eq!(parse_job_id(""), None);
    assert_eq!(parse_job_id("lotto"), None);
    assert_eq!(parse_job_id("lotto-"), None);
    assert_eq!(parse_job_id("LOTTO-1"), None);
    assert_eq!(parse_job_id("dice-1"), None);
    assert_eq!(parse_job_id("lotto-1x"), None);
    assert_eq!(parse_job_id("lotto--1"), None);
    assert_eq!(parse_job_id("lotto-+1"), None);
    assert_eq!(parse_job_id("lotto- 1"), None);
    assert_eq!(parse_job_id("xlotto-1"), None);
}

#[test]
fn parse_rejects_leading_zeros() {
    assert_eq!(parse_job_id("lotto-0"), Some(0));
    assert_eq!(parse_job_id("lotto-00"), None);
    assert_eq!(parse_job_id("lotto-007"), None);
    assert_eq!(parse_job_id("lotto-010"), None);
}

#[test]
fn parse_rejects_numbers_too_large() {
    assert_eq!(parse_job_id("lotto-4294967295"), Some(4294967295));
    assert_eq!(parse_job_id("lotto-4294967296"), None);
    assert_eq!(parse_job_id("lotto-99999999999999999999"), None);
}
