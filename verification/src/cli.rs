//! Command-line options and the parsing of their values.

use crate::duration::{duration_from_millis, duration_from_secs, duration_nanos};
use crate::text::{trim, trim_str};
use std::time::Duration;
use vstd::prelude::*;

verus! {

/// The options of a benchmark run.
#[derive(Debug, Clone)]
pub struct Args {
    /// Target URL to benchmark
    pub url: String,
    /// Number of concurrent connections
    pub connections: usize,
    /// Total number of requests (0 = unlimited, use with the duration)
    pub requests: u64,
    /// Test duration
    pub duration: Duration,
    /// Number of worker threads (0 = as many as the machine offers)
    pub threads: usize,
    /// HTTP method
    pub method: String,
    /// Request headers, each as "Key: Value"
    pub headers: Vec<String>,
    /// Request body
    pub body: Option<String>,
    /// File to read the request body from
    pub body_file: Option<String>,
    /// HTTP/2 only
    pub http2: bool,
    /// Target requests per second (0 = unlimited)
    pub rate: u64,
    /// Connection timeout
    pub timeout: Duration,
    /// Disable TLS certificate verification
    pub insecure: bool,
    /// Print the latency distribution
    pub latency: bool,
}

/// Why a decimal number could not be read.
#[derive(Debug, Clone, Copy, PartialEq, Eq, Structural)]
pub enum NumberError {
    /// There was nothing to read.
    Empty,
    /// A character is not a decimal digit.
    InvalidDigit,
    /// The number does not fit in a `u64`.
    Overflow,
}

pub open spec fn is_digit(c: char) -> bool {
    '0' <= c && c <= '9'
}

pub open spec fn digit_value(c: char) -> nat {
    (c as int - '0' as int) as nat
}

/// Reads the digits of `s` after the value `acc` already read, from left to
/// right, stopping at the first character that is no digit or the first digit
/// that makes the value overflow a `u64`.
pub open spec fn scan_digits(s: Seq<char>, acc: nat) -> Result<u64, NumberError>
    decreases s.len(),
{
    if s.len() == 0 {
        Ok(acc as u64)
    } else if !is_digit(s[0]) {
        Err(NumberError::InvalidDigit)
    } else if acc * 10 + digit_value(s[0]) > u64::MAX {
        Err(NumberError::Overflow)
    } else {
        scan_digits(s.drop_first(), acc * 10 + digit_value(s[0]))
    }
}

/// A decimal `u64`, with an optional leading `+`, as `u64::from_str` reads it.
pub open spec fn parse_u64_spec(s: Seq<char>) -> Result<u64, NumberError> {
    if s.len() == 0 {
        Err(NumberError::Empty)
    } else if s[0] == '+' {
        if s.len() == 1 {
            Err(NumberError::InvalidDigit)
        } else {
            scan_digits(s.drop_first(), 0)
        }
    } else {
        scan_digits(s, 0)
    }
}

/// The message that goes with each `NumberError`.
pub open spec fn number_error_text(e: NumberError) -> Seq<char> {
    match e {
        NumberError::Empty => "cannot parse integer from empty string"@,
        NumberError::InvalidDigit => "invalid digit found in string"@,
        NumberError::Overflow => "number too large to fit in target type"@,
    }
}

/// The message for `e`.
pub fn number_error_message(e: NumberError) -> (r: String)
    ensures
        r@ == number_error_text(e),
{
    match e {
        NumberError::Empty => String::from_str("cannot parse integer from empty string"),
        NumberError::InvalidDigit => String::from_str("invalid digit found in string"),
        NumberError::Overflow => String::from_str("number too large to fit in target type"),
    }
}

/// Reads a decimal `u64` from `s`.
pub fn parse_u64(s: &str) -> (r: Result<u64, NumberError>)
    ensures
        r == parse_u64_spec(s@),
{
    let n = s.unicode_len();
    if n == 0 {
        return Err(NumberError::Empty);
    }
    let mut i: usize = 0;
    if s.get_char(0) == '+' {
        if n == 1 {
            return Err(NumberError::InvalidDigit);
        }
        i = 1;
        assert(s@.drop_first() =~= s@.subrange(1, n as int));
    } else {
        assert(s@ =~= s@.subrange(0, n as int));
    }
    let mut acc: u64 = 0;
    while i < n
        invariant
            n == s@.len(),
            1 <= n,
            0 <= i <= n,
            parse_u64_spec(s@) == scan_digits(s@.subrange(i as int, n as int), acc as nat),
        decreases n - i,
    {
        let c = s.get_char(i);
        let ghost rest = s@.subrange(i as int, n as int);
        assert(rest[0] == c);
        if !('0' <= c && c <= '9') {
            return Err(NumberError::InvalidDigit);
        }
        let d = (c as u32 - '0' as u32) as u64;
        assert(d == digit_value(c));
        if acc > (u64::MAX - d) / 10 {
            assert(acc * 10 + d > u64::MAX) by (nonlinear_arith)
                requires
                    acc > (u64::MAX - d) / 10,
                    d <= 9,
            ;
            return Err(NumberError::Overflow);
        }
        assert(acc * 10 + d <= u64::MAX) by (nonlinear_arith)
            requires
                acc <= (u64::MAX - d) / 10,
                d <= 9,
        ;
        acc = acc * 10 + d;
        assert(rest.drop_first() =~= s@.subrange(i + 1, n as int));
        i = i + 1;
    }
    Ok(acc)
}

/// The unit that a duration's text ends in.
#[derive(Debug, Clone, Copy, PartialEq, Eq, Structural)]
pub enum DurationUnit {
    /// `ms`
    Milliseconds,
    /// `s`
    Seconds,
    /// `m`
    Minutes,
    /// no unit: seconds
    Bare,
}

/// The unit that the (trimmed) text `t` of a duration names.
pub open spec fn duration_unit(t: Seq<char>) -> DurationUnit {
    if t.len() >= 2 && t[t.len() - 2] == 'm' && t[t.len() - 1] == 's' {
        DurationUnit::Milliseconds
    } else if t.len() >= 1 && t[t.len() - 1] == 's' {
        DurationUnit::Seconds
    } else if t.len() >= 1 && t[t.len() - 1] == 'm' {
        DurationUnit::Minutes
    } else {
        DurationUnit::Bare
    }
}

/// The number part of the text `t` of a duration: `t` without its unit.
pub open spec fn duration_number(t: Seq<char>) -> Seq<char> {
    match duration_unit(t) {
        DurationUnit::Milliseconds => t.subrange(0, t.len() - 2),
        DurationUnit::Seconds => t.subrange(0, t.len() - 1),
        DurationUnit::Minutes => t.subrange(0, t.len() - 1),
        DurationUnit::Bare => t,
    }
}

/// The length in nanoseconds of `v` of `unit`.
pub open spec fn unit_nanos(v: u64, unit: DurationUnit) -> int {
    match unit {
        DurationUnit::Milliseconds => v * 1_000_000,
        DurationUnit::Seconds => v * 1_000_000_000,
        DurationUnit::Minutes => v * 60 * 1_000_000_000,
        DurationUnit::Bare => v * 1_000_000_000,
    }
}

/// The message of a duration text `t` whose number could not be read: the
/// number's own message, behind the whole text where it had no unit.
pub open spec fn duration_error_text(t: Seq<char>, e: NumberError) -> Seq<char> {
    if duration_unit(t) == DurationUnit::Bare {
        "invalid duration '"@ + t + "': "@ + number_error_text(e)
    } else {
        number_error_text(e)
    }
}

/// Whether `s` is a number of minutes whose count of seconds overflows a `u64`.
pub open spec fn minutes_overflow(s: Seq<char>) -> bool {
    let t = trim(s);
    &&& duration_unit(t) == DurationUnit::Minutes
    &&& parse_u64_spec(duration_number(t)) matches Ok(v)
    &&& v * 60 > u64::MAX
}

/// Whether `s`, read as a duration, is a number of minutes too large to be
/// counted in seconds.
pub fn duration_overflows(s: &str) -> (r: bool)
    ensures
        r == minutes_overflow(s@),
{
    let t = trim_str(s);
    let n = t.unicode_len();
    if n >= 1 && t.get_char(n - 1) == 'm' {
        let num = t.substring_char(0, n - 1);
        match parse_u64(num) {
            Ok(v) => v > u64::MAX / 60,
            Err(_) => false,
        }
    } else {
        false
    }
}

/// Reads a duration: a whole number followed by `ms`, `s`, `m` or nothing
/// (seconds), with white space around it allowed.
pub fn parse_duration(s: &str) -> (r: Result<Duration, String>)
    requires
        !minutes_overflow(s@),
    ensures
        ({
            let t = trim(s@);
            match parse_u64_spec(duration_number(t)) {
                Ok(v) => r matches Ok(d) && duration_nanos(d) == unit_nanos(v, duration_unit(t)),
                Err(e) => r matches Err(m) && m@ == duration_error_text(t, e),
            }
        }),
{
    let t = trim_str(s);
    let n = t.unicode_len();
    if n >= 2 && t.get_char(n - 2) == 'm' && t.get_char(n - 1) == 's' {
        match parse_u64(t.substring_char(0, n - 2)) {
            Ok(v) => Ok(duration_from_millis(v)),
            Err(e) => Err(number_error_message(e)),
        }
    } else if n >= 1 && t.get_char(n - 1) == 's' {
        match parse_u64(t.substring_char(0, n - 1)) {
            Ok(v) => Ok(duration_from_secs(v)),
            Err(e) => Err(number_error_message(e)),
        }
    } else if n >= 1 && t.get_char(n - 1) == 'm' {
        match parse_u64(t.substring_char(0, n - 1)) {
            Ok(v) => {
                assert(v * 60 <= u64::MAX);
                Ok(duration_from_secs(v * 60))
            },
            Err(e) => Err(number_error_message(e)),
        }
    } else {
        match parse_u64(t) {
            Ok(v) => Ok(duration_from_secs(v)),
            Err(e) => {
                let mut m = String::from_str("invalid duration '");
                m.append(t);
                m.append("': ");
                let tail = number_error_message(e);
                m.append(tail.as_str());
                Err(m)
            },
        }
    }
}

/// The number of worker threads: the number asked for, or where none is
/// (0) the parallelism that the machine offers, or 4 where it offers no
/// answer.
pub fn worker_thread_count(requested: usize, available: Option<usize>) -> (r: usize)
    ensures
        r == if requested > 0 {
            requested
        } else {
            match available {
                Some(n) => n,
                None => 4,
            }
        },
{
    if requested > 0 {
        requested
    } else {
        match available {
            Some(n) => n,
            None => 4,
        }
    }
}

} // verus!
