use caffeinate2::timeout::{parse_duration, settle, span_of, sum_spans, unit_of, TimeoutError};

fn span(number: &str, unit: &str) -> Vec<Option<Vec<u8>>> {
    let whole = format!("{}{}", number, unit);
    vec![
        Some(whole.into_bytes()),
        Some(number.as_bytes().to_vec()),
        Some(unit.as_bytes().to_vec()),
    ]
}

#[test]
fn test_parse_duration() {
    let duration = "1d2h3m4s".to_string();
    let result = parse_duration(duration).unwrap();
    assert_eq!(result, 93784);

    let duration = "1day 2hrs3m".to_string();
    let result = parse_duration(duration).unwrap();
    assert_eq!(result, 93780);

    let duration = "3 minutes 17 hours 2 seconds".to_string();
    let result = parse_duration(duration).unwrap();
    assert_eq!(result, 61382);

    let duration = "45323".to_string();
    let result = parse_duration(duration).unwrap();
    assert_eq!(result, 45323);
}

#[test]
fn compact_spans_add_up() {
    assert_eq!(parse_duration("90s".to_string()), Ok(90));
    assert_eq!(parse_duration("2m".to_string()), Ok(120));
    assert_eq!(parse_duration("2h".to_string()), Ok(7200));
    assert_eq!(parse_duration("2d".to_string()), Ok(172_800));
    assert_eq!(parse_duration("1s1s1s".to_string()), Ok(3));
    assert_eq!(parse_duration("5 \t m".to_string()), Ok(300));
    assert_eq!(parse_duration("007m".to_string()), Ok(420));
}

#[test]
fn what_is_no_span_is_passed_over() {
    assert_eq!(parse_duration("1h 30".to_string()), Ok(3600));
    assert_eq!(parse_duration("about 2 hours, maybe 10 more minutes".to_string()), Ok(7800));
    assert_eq!(parse_duration("-5m".to_string()), Ok(300));
    assert_eq!(parse_duration("1.5h".to_string()), Ok(5 * 3600));
}

#[test]
fn bare_numbers_are_seconds() {
    assert_eq!(parse_duration("0".to_string()), Ok(0));
    assert_eq!(parse_duration("+15".to_string()), Ok(15));
    assert_eq!(parse_duration("-15".to_string()), Ok(-15));
    assert_eq!(parse_duration("9223372036854775807".to_string()), Ok(i64::MAX));
    assert_eq!(parse_duration("-9223372036854775808".to_string()), Ok(i64::MIN));
}

#[test]
fn texts_that_give_no_timeout() {
    for text in ["", "abc", " 45 ", "10S", "4 5", "9223372036854775808", "0s", "0d 0h", "1e3"] {
        assert_eq!(parse_duration(text.to_string()), Err(TimeoutError::NotANumber));
    }
}

#[test]
fn numbers_beyond_sixty_four_bits() {
    assert_eq!(
        parse_duration("9223372036854775808s".to_string()),
        Err(TimeoutError::InvalidTimeout)
    );
    assert_eq!(parse_duration("9223372036854775807s".to_string()), Ok(i64::MAX));
    assert_eq!(parse_duration("9223372036854775807s1s".to_string()), Err(TimeoutError::Overflow));
    assert_eq!(parse_duration("153722867280912931m".to_string()), Err(TimeoutError::Overflow));
    assert_eq!(
        parse_duration("153722867280912930m".to_string()),
        Ok(153_722_867_280_912_930 * 60)
    );
    assert_eq!(parse_duration("106751991167301d".to_string()), Err(TimeoutError::Overflow));
    // The first fault decides.
    assert_eq!(
        parse_duration("99999999999999999999h 9223372036854775807d".to_string()),
        Err(TimeoutError::InvalidTimeout)
    );
    assert_eq!(
        parse_duration("9223372036854775807d 99999999999999999999h".to_string()),
        Err(TimeoutError::Overflow)
    );
}

#[test]
fn digits_of_other_scripts_are_found_but_are_no_numbers() {
    assert_eq!(
        parse_duration("\u{661}\u{662}s".to_string()),
        Err(TimeoutError::InvalidTimeout)
    );
}

#[test]
fn units_by_their_letter() {
    assert_eq!(unit_of(b"s"), Some(1));
    assert_eq!(unit_of(b"m"), Some(60));
    assert_eq!(unit_of(b"h"), Some(3600));
    assert_eq!(unit_of(b"d"), Some(86400));
    for unit in [&b""[..], b"S", b"w", b"ss", b"min", b" s"] {
        assert_eq!(unit_of(unit), None);
    }
}

#[test]
fn one_span_from_its_groups() {
    assert_eq!(span_of(&span("3", "h")), Ok(10800));
    assert_eq!(span_of(&span("-2", "m")), Ok(-120));
    assert_eq!(span_of(&span("+2", "d")), Ok(172_800));
    assert_eq!(span_of(&span("x", "s")), Err(TimeoutError::InvalidTimeout));
    assert_eq!(span_of(&span("", "s")), Err(TimeoutError::InvalidTimeout));
    assert_eq!(span_of(&span("3", "w")), Err(TimeoutError::InvalidDuration));
    assert_eq!(span_of(&span("x", "w")), Err(TimeoutError::InvalidTimeout));
    assert_eq!(span_of(&vec![]), Err(TimeoutError::InvalidTimeout));
    assert_eq!(span_of(&vec![Some(b"3h".to_vec())]), Err(TimeoutError::InvalidTimeout));
    assert_eq!(
        span_of(&vec![Some(b"3h".to_vec()), None, Some(b"h".to_vec())]),
        Err(TimeoutError::InvalidTimeout)
    );
    assert_eq!(
        span_of(&vec![Some(b"3h".to_vec()), Some(b"3".to_vec())]),
        Err(TimeoutError::InvalidDuration)
    );
    assert_eq!(
        span_of(&vec![Some(b"3h".to_vec()), Some(b"3".to_vec()), None]),
        Err(TimeoutError::InvalidDuration)
    );
    assert_eq!(span_of(&span("-9223372036854775808", "s")), Ok(i64::MIN));
    assert_eq!(span_of(&span("-9223372036854775808", "m")), Err(TimeoutError::Overflow));
}

#[test]
fn sums_and_settling() {
    assert_eq!(sum_spans(&vec![]), Ok(0));
    assert_eq!(sum_spans(&vec![span("1", "m"), span("-60", "s")]), Ok(0));
    assert_eq!(sum_spans(&vec![span("1", "m"), span("2", "x"), span("y", "s")]),
        Err(TimeoutError::InvalidDuration));
    assert_eq!(
        sum_spans(&vec![span("-9223372036854775808", "s"), span("-1", "s")]),
        Err(TimeoutError::Overflow)
    );
    assert_eq!(settle(None, "5"), Err(TimeoutError::Pattern));
    assert_eq!(settle(Some(vec![]), "5"), Ok(5));
    assert_eq!(settle(Some(vec![]), "five"), Err(TimeoutError::NotANumber));
    assert_eq!(settle(Some(vec![span("1", "m"), span("-60", "s")]), "77"), Ok(77));
    assert_eq!(settle(Some(vec![span("1", "m")]), "77"), Ok(60));
    assert_eq!(settle(Some(vec![span("1", "q")]), "77"), Err(TimeoutError::InvalidDuration));
}
