use epoch::units::{MICROS_LIMIT, MILLIS_LIMIT, NANOS_PER_SECOND, SECONDS_LIMIT};
use epoch::{classify, Units};

#[test]
fn per_second_is_the_scale_of_each_unit() {
    assert_eq!(Units::Seconds.per_second(), 1);
    assert_eq!(Units::Milli.per_second(), 1_000);
    assert_eq!(Units::Micro.per_second(), 1_000_000);
    assert_eq!(Units::Nano.per_second(), 1_000_000_000);
    assert_eq!(Units::Nano.per_second(), NANOS_PER_SECOND);
}

#[test]
fn name_is_the_text_shown_for_each_unit() {
    assert_eq!(Units::Seconds.name(), "seconds");
    assert_eq!(Units::Milli.name(), "milli-seconds");
    assert_eq!(Units::Micro.name(), "micro-seconds");
    assert_eq!(Units::Nano.name(), "nano-seconds");
}

#[test]
fn limits_are_powers_of_ten() {
    assert_eq!(SECONDS_LIMIT, 10_000_000_000);
    assert_eq!(MILLIS_LIMIT, 10_000_000_000_000);
    assert_eq!(MICROS_LIMIT, 10_000_000_000_000_000);
}

#[test]
fn classify_reads_each_sample_in_its_band() {
    assert_eq!(classify(1_630_779_114), Units::Seconds);
    assert_eq!(classify(1_630_779_114_123), Units::Milli);
    assert_eq!(classify(1_630_779_114_123_456), Units::Micro);
    assert_eq!(classify(1_630_779_114_123_456_789), Units::Nano);
}

#[test]
fn classify_puts_each_limit_in_the_finer_unit() {
    assert_eq!(classify(10_000_000_000), Units::Milli);
    assert_eq!(classify(10_000_000_000_000), Units::Micro);
    assert_eq!(classify(10_000_000_000_000_000), Units::Nano);
}

#[test]
fn classify_keeps_the_count_below_each_limit_in_the_coarser_unit() {
    assert_eq!(classify(9_999_999_999), Units::Seconds);
    assert_eq!(classify(9_999_999_999_999), Units::Milli);
    assert_eq!(classify(9_999_999_999_999_999), Units::Micro);
}

#[test]
fn classify_at_the_ends_of_the_range() {
    assert_eq!(classify(0), Units::Seconds);
    assert_eq!(classify(-1), Units::Seconds);
    assert_eq!(classify(i64::MIN), Units::Seconds);
    assert_eq!(classify(i64::MAX), Units::Nano);
}
