use filewatch_signaler::{
    count_digits, parse_wait_time, settle_from_parsed, SettleDelay, WaitTimeError,
    MAX_WAIT_TIME_DIGITS,
};

#[test]
fn default_delay_is_half_a_second() {
    let delay = SettleDelay::default();
    assert_eq!(delay.as_secs(), 0);
    assert_eq!(delay.subsec_nanos(), 500_000_000);
    assert_eq!(delay, SettleDelay::from_millis(500));
    assert_eq!(Ok(delay), parse_wait_time("500ms"));
}

#[test]
fn from_millis_splits_seconds_and_fraction() {
    let delay = SettleDelay::from_millis(1500);
    assert_eq!(delay.as_secs(), 1);
    assert_eq!(delay.subsec_nanos(), 500_000_000);
    let delay = SettleDelay::from_millis(u64::MAX);
    assert_eq!(delay.as_secs(), 18_446_744_073_709_551);
    assert_eq!(delay.subsec_nanos(), 615_000_000);
}

#[test]
fn new_takes_a_fraction_below_one_second() {
    assert_eq!(SettleDelay::new(2, 999_999_999).map(|d| (d.as_secs(), d.subsec_nanos())), Some((2, 999_999_999)));
    assert_eq!(SettleDelay::new(2, 1_000_000_000), None);
    assert_eq!(SettleDelay::new(0, u32::MAX), None);
    assert_eq!(SettleDelay::new(0, 0), Some(SettleDelay::zero()));
}

#[test]
fn zero_delay_is_zero() {
    assert!(SettleDelay::zero().is_zero());
    assert!(SettleDelay::from_millis(0).is_zero());
    assert!(!SettleDelay::from_millis(1).is_zero());
    assert!(!SettleDelay::default().is_zero());
}

#[test]
fn wait_time_is_read_from_human_text() {
    assert_eq!(parse_wait_time("2s"), Ok(SettleDelay::from_millis(2000)));
    assert_eq!(parse_wait_time("32ms"), Ok(SettleDelay::from_millis(32)));
    assert_eq!(parse_wait_time("2h 37min"), SettleDelay::new(9420, 0).ok_or(WaitTimeError::FractionOutOfRange));
    assert_eq!(parse_wait_time("1s 5ns"), SettleDelay::new(1, 5).ok_or(WaitTimeError::FractionOutOfRange));
}

#[test]
fn zero_wait_time_is_accepted() {
    assert_eq!(parse_wait_time("0ms"), Ok(SettleDelay::zero()));
    assert_eq!(parse_wait_time("0"), Ok(SettleDelay::zero()));
}

#[test]
fn malformed_wait_time_is_invalid() {
    assert!(matches!(parse_wait_time("soon"), Err(WaitTimeError::Invalid(_))));
    assert!(matches!(parse_wait_time(""), Err(WaitTimeError::Invalid(_))));
    assert!(matches!(parse_wait_time("-5s"), Err(WaitTimeError::Invalid(_))));
    assert!(matches!(parse_wait_time("5 parsecs"), Err(WaitTimeError::Invalid(_))));
}

#[test]
fn invalid_wait_time_keeps_the_parser_message() {
    let expected = humantime::parse_duration("soon").unwrap_err().to_string();
    assert_eq!(parse_wait_time("soon"), Err(WaitTimeError::Invalid(expected.clone())));
    assert_eq!(parse_wait_time("soon").unwrap_err().message(), expected);
}

#[test]
fn parsed_parts_become_a_delay() {
    assert_eq!(settle_from_parsed(Ok((3, 250_000_000))), Ok(SettleDelay::from_millis(3250)));
    assert_eq!(settle_from_parsed(Ok((0, 0))), Ok(SettleDelay::zero()));
}

#[test]
fn parsed_fraction_of_a_second_or_more_is_refused() {
    assert_eq!(settle_from_parsed(Ok((3, 1_000_000_000))), Err(WaitTimeError::FractionOutOfRange));
    assert_eq!(
        WaitTimeError::FractionOutOfRange.message(),
        "the fraction of a second is out of range"
    );
}

#[test]
fn parser_error_becomes_invalid() {
    assert_eq!(
        settle_from_parsed(Err("bad".to_string())),
        Err(WaitTimeError::Invalid("bad".to_string()))
    );
}

#[test]
fn digits_are_counted() {
    assert_eq!(count_digits(""), 0);
    assert_eq!(count_digits("500ms"), 3);
    assert_eq!(count_digits("2h 37min"), 3);
    assert_eq!(count_digits("soon"), 0);
    assert_eq!(count_digits("4.25s"), 3);
    assert_eq!(count_digits("0123456789"), 10);
    assert_eq!(count_digits("١٢٣ms"), 0);
    assert_eq!(count_digits("18446744073709551615s 1000ms"), 24);
}

#[test]
fn wait_time_may_hold_eleven_digits() {
    assert_eq!(MAX_WAIT_TIME_DIGITS, 11);
    assert_eq!(
        parse_wait_time("99999999999s"),
        SettleDelay::new(99_999_999_999, 0).ok_or(WaitTimeError::FractionOutOfRange)
    );
    assert_eq!(
        parse_wait_time("99999999999y"),
        SettleDelay::new(99_999_999_999 * 31_557_600, 0).ok_or(WaitTimeError::FractionOutOfRange)
    );
    assert_eq!(
        parse_wait_time("12345s 678901ms"),
        SettleDelay::new(12_345 + 678, 901_000_000).ok_or(WaitTimeError::FractionOutOfRange)
    );
}

#[test]
fn wait_time_with_more_digits_is_refused() {
    assert_eq!(parse_wait_time("100000000000s"), Err(WaitTimeError::TooManyDigits));
    assert_eq!(parse_wait_time("123456789012"), Err(WaitTimeError::TooManyDigits));
    assert_eq!(parse_wait_time("000000000000ms"), Err(WaitTimeError::TooManyDigits));
    assert_eq!(
        WaitTimeError::TooManyDigits.message(),
        "the wait time holds too many digits"
    );
}

#[test]
fn wait_time_at_the_largest_seconds_is_refused() {
    assert_eq!(
        parse_wait_time("18446744073709551615s 1000ms"),
        Err(WaitTimeError::TooManyDigits)
    );
    assert_eq!(parse_wait_time("18446744073709551615s"), Err(WaitTimeError::TooManyDigits));
}

#[test]
fn full_second_of_milliseconds_is_carried() {
    assert_eq!(parse_wait_time("1000ms"), Ok(SettleDelay::from_millis(1000)));
    assert_eq!(parse_wait_time("1s 1000ms"), Ok(SettleDelay::from_millis(2000)));
    assert_eq!(parse_wait_time("1500ms"), Ok(SettleDelay::from_millis(1500)));
}
