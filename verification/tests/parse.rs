use chrono::NaiveDate;
use epoch::calendar::MIN_TIMESTAMP;
use epoch::{int_to_datetime, try_parse, Units};

#[test]
fn non_numeric_text_gives_nothing() {
    assert!(try_parse("abc").is_none());
}

#[test]
fn text_that_is_no_plain_integer_gives_nothing() {
    for text in ["", "-", "+", "--5", "+-5", " 5", "5 ", "5\n", "1_000", "1,000", "12.5", "0x10", "1e9", "5s"] {
        assert!(try_parse(text).is_none(), "{:?}", text);
    }
}

#[test]
fn digits_of_other_scripts_give_nothing() {
    assert!(try_parse("\u{0665}").is_none());
    assert!(try_parse("\u{ff15}").is_none());
}

#[test]
fn numbers_beyond_sixty_four_bits_give_nothing() {
    assert!(try_parse("9223372036854775808").is_none());
    assert!(try_parse("-9223372036854775809").is_none());
    assert!(try_parse("100000000000000000000").is_none());
}

#[test]
fn try_parse_reads_each_unit() {
    let parsed = try_parse("1630779114").unwrap();
    assert_eq!(parsed, int_to_datetime(1630779114));
    assert_eq!(parsed.unit, Units::Seconds);
    let parsed = try_parse("1630779114123").unwrap();
    assert_eq!(parsed, int_to_datetime(1630779114123));
    assert_eq!(parsed.unit, Units::Milli);
    let parsed = try_parse("1630779114123456").unwrap();
    assert_eq!(parsed, int_to_datetime(1630779114123456));
    assert_eq!(parsed.unit, Units::Micro);
    let parsed = try_parse("1630779114123456789").unwrap();
    assert_eq!(parsed, int_to_datetime(1630779114123456789));
    assert_eq!(parsed.unit, Units::Nano);
}

#[test]
fn try_parse_gives_the_date_written() {
    let parsed = try_parse("1630779114123").unwrap();
    assert_eq!(
        parsed.dt,
        NaiveDate::from_ymd_opt(2021, 9, 4).unwrap().and_hms_milli_opt(18, 11, 54, 123).unwrap()
    );
}

#[test]
fn try_parse_takes_a_sign_and_leading_zeros() {
    assert_eq!(try_parse("+1630779114").unwrap(), int_to_datetime(1630779114));
    assert_eq!(try_parse("0001630779114").unwrap(), int_to_datetime(1630779114));
    assert_eq!(try_parse("-0").unwrap(), int_to_datetime(0));
    assert_eq!(try_parse("0").unwrap(), int_to_datetime(0));
}

#[test]
fn try_parse_reads_a_negative_number_as_seconds() {
    let parsed = try_parse("-5").unwrap();
    assert_eq!(parsed.unit, Units::Seconds);
    assert_eq!(parsed.dt.and_utc().timestamp(), -5);
    assert_eq!(parsed.dt.and_utc().timestamp_subsec_nanos(), 0);
}

#[test]
fn try_parse_reads_the_largest_number() {
    let parsed = try_parse("9223372036854775807").unwrap();
    assert_eq!(parsed.unit, Units::Nano);
    assert_eq!(parsed.dt.and_utc().timestamp(), 9_223_372_036);
    assert_eq!(parsed.dt.and_utc().timestamp_subsec_nanos(), 854_775_807);
}

#[test]
fn try_parse_stops_at_the_start_of_the_calendar() {
    assert_eq!(MIN_TIMESTAMP, -8_334_601_228_800);
    let first = try_parse("-8334601228800").unwrap();
    assert_eq!(first.unit, Units::Seconds);
    assert_eq!(first.dt.and_utc().timestamp(), MIN_TIMESTAMP);
    assert!(try_parse("-8334601228801").is_none());
    assert!(try_parse("-9223372036854775808").is_none());
}
