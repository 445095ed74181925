use rench::cli::{duration_overflows, parse_duration, parse_u64, worker_thread_count, NumberError};
use rench::text::trim_str;
use std::time::Duration;

#[test]
fn test_parse_duration() {
    // Success cases
    assert_eq!(parse_duration("100ms"), Ok(Duration::from_millis(100)));
    assert_eq!(parse_duration("10s"), Ok(Duration::from_secs(10)));
    assert_eq!(parse_duration("2m"), Ok(Duration::from_secs(120)));
    assert_eq!(parse_duration("30"), Ok(Duration::from_secs(30)));

    // Whitespace
    assert_eq!(parse_duration("  30s  "), Ok(Duration::from_secs(30)));

    // Error cases
    assert!(parse_duration("abc").is_err());
    assert!(parse_duration("10x").is_err());
    assert!(parse_duration("").is_err());
    assert!(parse_duration("ms").is_err());
}

#[test]
fn parse_duration_error_messages() {
    assert_eq!(
        parse_duration("abc"),
        Err("invalid duration 'abc': invalid digit found in string".to_string())
    );
    assert_eq!(
        parse_duration(" 10x "),
        Err("invalid duration '10x': invalid digit found in string".to_string())
    );
    assert_eq!(
        parse_duration(""),
        Err("invalid duration '': cannot parse integer from empty string".to_string())
    );
    assert_eq!(
        parse_duration("ms"),
        Err("cannot parse integer from empty string".to_string())
    );
    assert_eq!(parse_duration("xs"), Err("invalid digit found in string".to_string()));
    assert_eq!(
        parse_duration("99999999999999999999s"),
        Err("number too large to fit in target type".to_string())
    );
}

#[test]
fn parse_duration_units_and_signs() {
    assert_eq!(parse_duration("+5s"), Ok(Duration::from_secs(5)));
    assert_eq!(parse_duration("0ms"), Ok(Duration::from_millis(0)));
    assert_eq!(parse_duration("\t7m\n"), Ok(Duration::from_secs(420)));
    assert_eq!(parse_duration("\u{3000}250ms\u{a0}"), Ok(Duration::from_millis(250)));
    assert_eq!(parse_duration("18446744073709551615"), Ok(Duration::from_secs(u64::MAX)));
    assert!(parse_duration("-5s").is_err());
    assert!(parse_duration("5 s").is_err());
    assert!(parse_duration("+").is_err());
}

#[test]
fn minutes_that_overflow_are_detected() {
    assert!(duration_overflows("307445734561825861m"));
    assert!(!duration_overflows("307445734561825860m"));
    assert!(!duration_overflows("99999999999999999999s"));
    assert!(!duration_overflows("abc"));
    assert_eq!(
        parse_duration("307445734561825860m"),
        Ok(Duration::from_secs(307445734561825860 * 60))
    );
}

#[test]
fn parse_u64_follows_from_str() {
    for s in ["0", "42", "+42", "", "+", "-1", "18446744073709551615", "18446744073709551616", "1a", "٣"] {
        let ours = parse_u64(s);
        let std = s.parse::<u64>();
        match (ours, std) {
            (Ok(a), Ok(b)) => assert_eq!(a, b),
            (Err(e), Err(f)) => {
                let expected = match e {
                    NumberError::Empty => "cannot parse integer from empty string",
                    NumberError::InvalidDigit => "invalid digit found in string",
                    NumberError::Overflow => "number too large to fit in target type",
                };
                assert_eq!(expected, f.to_string());
            }
            (a, b) => panic!("{:?} and {:?} differ on {:?}", a, b, s),
        }
    }
}

#[test]
fn trim_matches_std_trim() {
    for s in ["", "   ", " a ", "\u{2028}x\u{205f}", "a b", "\u{200b}z"] {
        assert_eq!(trim_str(s), s.trim());
    }
}

#[test]
fn thread_count_defaults() {
    assert_eq!(worker_thread_count(8, Some(2)), 8);
    assert_eq!(worker_thread_count(0, Some(2)), 2);
    assert_eq!(worker_thread_count(0, None), 4);
}
