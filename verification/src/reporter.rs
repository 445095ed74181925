//! What the terminal report shows: the unit each number is written in, and
//! which lines and sections appear. The writing itself, with colours and
//! decimal fractions, is done by the program around the library.

use crate::cli::Args;
use crate::duration::{duration_as_millis, duration_as_secs, duration_nanos};
use crate::histogram::hist_values;
use crate::stats::{AggregatedStats, ErrorKind};
use std::time::Duration;
use vstd::prelude::*;

verus! {

/// How a duration is written.
#[derive(Debug, Clone, Copy, PartialEq, Eq, Structural)]
pub enum DurationText {
    /// A minute or more: whole minutes and the seconds left over ("2m5s").
    MinutesSeconds { minutes: u64, seconds: u64 },
    /// A second or more, under a minute: seconds with one decimal ("2.5s").
    Seconds,
    /// Under a second: whole milliseconds ("250ms").
    Milliseconds { millis: u128 },
}

/// How the duration `d` is written.
pub open spec fn duration_text_spec(d: Duration) -> DurationText {
    let secs = duration_nanos(d) / 1_000_000_000;
    if secs >= 60 {
        DurationText::MinutesSeconds { minutes: (secs / 60) as u64, seconds: (secs % 60) as u64 }
    } else if secs > 0 {
        DurationText::Seconds
    } else {
        DurationText::Milliseconds { millis: duration_nanos(d) / 1_000_000 }
    }
}

/// How the duration `d` is written.
pub fn duration_text(d: &Duration) -> (r: DurationText)
    ensures
        r == duration_text_spec(*d),
        r is MinutesSeconds <==> duration_nanos(*d) >= 60_000_000_000,
        r matches DurationText::MinutesSeconds { minutes, seconds } ==> minutes * 60 + seconds
            == duration_nanos(*d) / 1_000_000_000 && seconds < 60,
        r is Seconds <==> 1_000_000_000 <= duration_nanos(*d) < 60_000_000_000,
        r matches DurationText::Milliseconds { millis } ==> millis == duration_nanos(*d)
            / 1_000_000,
{
    let secs = duration_as_secs(d);
    if secs >= 60 {
        DurationText::MinutesSeconds { minutes: secs / 60, seconds: secs % 60 }
    } else if secs > 0 {
        DurationText::Seconds
    } else {
        DurationText::Milliseconds { millis: duration_as_millis(d) }
    }
}

/// The unit a latency in microseconds is written in.
#[derive(Debug, Clone, Copy, PartialEq, Eq, Structural)]
pub enum TimeScale {
    /// "s", two decimals
    Seconds,
    /// "ms", two decimals
    Milliseconds,
    /// "µs", whole
    Microseconds,
}

/// The unit for a latency of `us` microseconds: the largest one of which it
/// holds at least one.
pub fn time_scale(us: u64) -> (r: TimeScale)
    ensures
        r == if us >= 1_000_000 {
            TimeScale::Seconds
        } else if us >= 1_000 {
            TimeScale::Milliseconds
        } else {
            TimeScale::Microseconds
        },
{
    if us >= 1_000_000 {
        TimeScale::Seconds
    } else if us >= 1_000 {
        TimeScale::Milliseconds
    } else {
        TimeScale::Microseconds
    }
}

impl TimeScale {
    /// The microseconds in one of this unit.
    pub fn divisor(self) -> (r: u64)
        ensures
            r == match self {
                TimeScale::Seconds => 1_000_000u64,
                TimeScale::Milliseconds => 1_000u64,
                TimeScale::Microseconds => 1u64,
            },
    {
        match self {
            TimeScale::Seconds => 1_000_000,
            TimeScale::Milliseconds => 1_000,
            TimeScale::Microseconds => 1,
        }
    }
}

/// The unit a count is written in.
#[derive(Debug, Clone, Copy, PartialEq, Eq, Structural)]
pub enum CountScale {
    /// "M", two decimals
    Millions,
    /// "K", two decimals
    Thousands,
    /// whole
    Units,
}

/// The unit for the count `n`.
pub fn count_scale(n: u64) -> (r: CountScale)
    ensures
        r == if n >= 1_000_000 {
            CountScale::Millions
        } else if n >= 1_000 {
            CountScale::Thousands
        } else {
            CountScale::Units
        },
{
    if n >= 1_000_000 {
        CountScale::Millions
    } else if n >= 1_000 {
        CountScale::Thousands
    } else {
        CountScale::Units
    }
}

impl CountScale {
    /// The count of one of this unit.
    pub fn divisor(self) -> (r: u64)
        ensures
            r == match self {
                CountScale::Millions => 1_000_000u64,
                CountScale::Thousands => 1_000u64,
                CountScale::Units => 1u64,
            },
    {
        match self {
            CountScale::Millions => 1_000_000,
            CountScale::Thousands => 1_000,
            CountScale::Units => 1,
        }
    }
}

/// The unit an amount of data is written in.
#[derive(Debug, Clone, Copy, PartialEq, Eq, Structural)]
pub enum ByteScale {
    /// "GB" (2^30 bytes), two decimals
    Gigabytes,
    /// "MB" (2^20 bytes), two decimals
    Megabytes,
    /// "KB" (2^10 bytes), two decimals
    Kilobytes,
    /// "B", whole
    Units,
}

/// The unit for `b` bytes.
pub fn byte_scale(b: u64) -> (r: ByteScale)
    ensures
        r == if b >= 1_073_741_824 {
            ByteScale::Gigabytes
        } else if b >= 1_048_576 {
            ByteScale::Megabytes
        } else if b >= 1_024 {
            ByteScale::Kilobytes
        } else {
            ByteScale::Units
        },
{
    if b >= 1_073_741_824 {
        ByteScale::Gigabytes
    } else if b >= 1_048_576 {
        ByteScale::Megabytes
    } else if b >= 1_024 {
        ByteScale::Kilobytes
    } else {
        ByteScale::Units
    }
}

impl ByteScale {
    /// The bytes in one of this unit.
    pub fn divisor(self) -> (r: u64)
        ensures
            r == match self {
                ByteScale::Gigabytes => 1_073_741_824u64,
                ByteScale::Megabytes => 1_048_576u64,
                ByteScale::Kilobytes => 1_024u64,
                ByteScale::Units => 1u64,
            },
    {
        match self {
            ByteScale::Gigabytes => 1_073_741_824,
            ByteScale::Megabytes => 1_048_576,
            ByteScale::Kilobytes => 1_024,
            ByteScale::Units => 1,
        }
    }
}

/// The lines of the report's header that depend on the options.
pub struct HeaderPlan {
    /// The rate limit, where there is one.
    pub rate_limit: Option<u64>,
    /// The protocol of the requests.
    pub protocol: &'static str,
    /// Whether to warn that certificates are not checked.
    pub tls_warning: bool,
}

/// The header lines that `args` ask for.
pub fn header_plan(args: &Args) -> (r: HeaderPlan)
    ensures
        r.rate_limit == if args.rate > 0 {
            Some(args.rate)
        } else {
            None
        },
        r.protocol@ == if args.http2 {
            "HTTP/2"@
        } else {
            "HTTP/1.1"@
        },
        r.tls_warning == args.insecure,
{
    HeaderPlan {
        rate_limit: if args.rate > 0 {
            Some(args.rate)
        } else {
            None
        },
        protocol: if args.http2 {
            "HTTP/2"
        } else {
            "HTTP/1.1"
        },
        tls_warning: args.insecure,
    }
}

/// The classes of response status that the report counts.
#[derive(Debug, Clone, Copy, PartialEq, Eq, Structural)]
pub enum StatusClass {
    /// 2xx
    Success,
    /// 3xx
    Redirect,
    /// 4xx
    ClientError,
    /// 5xx
    ServerError,
}

/// The responses of `s` in the status class `c`.
pub open spec fn class_total(s: AggregatedStats, c: StatusClass) -> u64 {
    match c {
        StatusClass::Success => s.status_2xx,
        StatusClass::Redirect => s.status_3xx,
        StatusClass::ClientError => s.status_4xx,
        StatusClass::ServerError => s.status_5xx,
    }
}

/// The failed requests of `s` of the kind `k`.
pub open spec fn kind_total(s: AggregatedStats, k: ErrorKind) -> u64 {
    match k {
        ErrorKind::Connect => s.connect_errors,
        ErrorKind::Read => s.read_errors,
        ErrorKind::Timeout => s.timeout_errors,
    }
}

/// `row` where `count` is not 0, nothing where it is.
pub open spec fn row_if<T>(row: T, count: u64) -> Seq<T> {
    if count > 0 {
        seq![row]
    } else {
        Seq::empty()
    }
}

/// The status lines of the report: each class with responses, in order.
pub open spec fn status_rows_spec(s: AggregatedStats) -> Seq<(StatusClass, u64)> {
    row_if((StatusClass::Success, s.status_2xx), s.status_2xx) + row_if(
        (StatusClass::Redirect, s.status_3xx),
        s.status_3xx,
    ) + row_if((StatusClass::ClientError, s.status_4xx), s.status_4xx) + row_if(
        (StatusClass::ServerError, s.status_5xx),
        s.status_5xx,
    )
}

/// The error lines of the report: each kind of error that occurred, in order.
pub open spec fn error_rows_spec(s: AggregatedStats) -> Seq<(ErrorKind, u64)> {
    row_if((ErrorKind::Connect, s.connect_errors), s.connect_errors) + row_if(
        (ErrorKind::Read, s.read_errors),
        s.read_errors,
    ) + row_if((ErrorKind::Timeout, s.timeout_errors), s.timeout_errors)
}

/// The status lines of the report.
pub fn status_rows(stats: &AggregatedStats) -> (r: Vec<(StatusClass, u64)>)
    ensures
        r@ == status_rows_spec(*stats),
        forall|i: int|
            0 <= i < r@.len() ==> #[trigger] r@[i].1 == class_total(*stats, r@[i].0) && r@[i].1
                > 0,
        forall|c: StatusClass|
            class_total(*stats, c) > 0 <==> exists|i: int|
                0 <= i < r@.len() && #[trigger] r@[i].0 == c,
{
    let mut rows: Vec<(StatusClass, u64)> = Vec::new();
    if stats.status_2xx > 0 {
        rows.push((StatusClass::Success, stats.status_2xx));
    }
    if stats.status_3xx > 0 {
        rows.push((StatusClass::Redirect, stats.status_3xx));
    }
    if stats.status_4xx > 0 {
        rows.push((StatusClass::ClientError, stats.status_4xx));
    }
    if stats.status_5xx > 0 {
        rows.push((StatusClass::ServerError, stats.status_5xx));
    }
    assert(rows@ =~= status_rows_spec(*stats));
    proof {
        lemma_status_rows_carry_their_counts(*stats);
    }
    rows
}

/// The error lines of the report; the section is shown only where there are
/// some.
pub fn error_rows(stats: &AggregatedStats) -> (r: Vec<(ErrorKind, u64)>)
    ensures
        r@ == error_rows_spec(*stats),
        forall|i: int|
            0 <= i < r@.len() ==> #[trigger] r@[i].1 == kind_total(*stats, r@[i].0) && r@[i].1
                > 0,
        forall|k: ErrorKind|
            kind_total(*stats, k) > 0 <==> exists|i: int|
                0 <= i < r@.len() && #[trigger] r@[i].0 == k,
{
    let mut rows: Vec<(ErrorKind, u64)> = Vec::new();
    if stats.connect_errors > 0 {
        rows.push((ErrorKind::Connect, stats.connect_errors));
    }
    if stats.read_errors > 0 {
        rows.push((ErrorKind::Read, stats.read_errors));
    }
    if stats.timeout_errors > 0 {
        rows.push((ErrorKind::Timeout, stats.timeout_errors));
    }
    assert(rows@ =~= error_rows_spec(*stats));
    proof {
        lemma_error_rows_carry_their_counts(*stats);
    }
    rows
}

/// Whether the report shows the latency section: where some latency was
/// recorded.
pub fn shows_latency(stats: &AggregatedStats) -> (r: bool)
    ensures
        r == (hist_values(stats.latency_hist).len() > 0),
{
    stats.latency_hist.len() > 0
}

/// Every status line carries the count of its own class, no line has a count
/// of 0, and every class with responses has a line.
pub proof fn lemma_status_rows_carry_their_counts(s: AggregatedStats)
    ensures
        forall|i: int|
            0 <= i < status_rows_spec(s).len() ==> #[trigger] status_rows_spec(s)[i].1
                == class_total(s, status_rows_spec(s)[i].0) && status_rows_spec(s)[i].1 > 0,
        forall|c: StatusClass|
            class_total(s, c) > 0 <==> exists|i: int|
                0 <= i < status_rows_spec(s).len() && #[trigger] status_rows_spec(s)[i].0 == c,
{
    let r = status_rows_spec(s);
    assert forall|c: StatusClass| class_total(s, c) > 0 implies exists|i: int|
        0 <= i < r.len() && #[trigger] r[i].0 == c by {
        let n2: int = if s.status_2xx > 0 { 1 } else { 0 };
        let n3: int = if s.status_3xx > 0 { 1 } else { 0 };
        let n4: int = if s.status_4xx > 0 { 1 } else { 0 };
        match c {
            StatusClass::Success => assert(r[0].0 == c),
            StatusClass::Redirect => assert(r[n2].0 == c),
            StatusClass::ClientError => assert(r[n2 + n3].0 == c),
            StatusClass::ServerError => assert(r[n2 + n3 + n4].0 == c),
        }
    }
}

/// Every error line carries the count of its own kind, no line has a count
/// of 0, and every kind that occurred has a line.
pub proof fn lemma_error_rows_carry_their_counts(s: AggregatedStats)
    ensures
        forall|i: int|
            0 <= i < error_rows_spec(s).len() ==> #[trigger] error_rows_spec(s)[i].1
                == kind_total(s, error_rows_spec(s)[i].0) && error_rows_spec(s)[i].1 > 0,
        forall|k: ErrorKind|
            kind_total(s, k) > 0 <==> exists|i: int|
                0 <= i < error_rows_spec(s).len() && #[trigger] error_rows_spec(s)[i].0 == k,
{
    let r = error_rows_spec(s);
    assert forall|k: ErrorKind| kind_total(s, k) > 0 implies exists|i: int|
        0 <= i < r.len() && #[trigger] r[i].0 == k by {
        let n1: int = if s.connect_errors > 0 { 1 } else { 0 };
        let n2: int = if s.read_errors > 0 { 1 } else { 0 };
        match k {
            ErrorKind::Connect => assert(r[0].0 == k),
            ErrorKind::Read => assert(r[n1].0 == k),
            ErrorKind::Timeout => assert(r[n1 + n2].0 == k),
        }
    }
}

/// A duration of a minute or more is written as whole minutes and the
/// seconds under a minute that together give its whole seconds; one under a
/// second, as its whole milliseconds. (A duration has at most `u64::MAX`
/// whole seconds.)
pub proof fn lemma_duration_text_keeps_its_length(d: Duration)
    requires
        duration_nanos(d) / 1_000_000_000 <= u64::MAX,
    ensures
        duration_text_spec(d) is MinutesSeconds <==> duration_nanos(d) >= 60_000_000_000,
        duration_text_spec(d) matches DurationText::MinutesSeconds { minutes, seconds } ==> minutes
            * 60 + seconds == duration_nanos(d) / 1_000_000_000 && seconds < 60,
        duration_text_spec(d) is Seconds <==> 1_000_000_000 <= duration_nanos(d)
            < 60_000_000_000,
        duration_text_spec(d) matches DurationText::Milliseconds { millis } ==> millis
            == duration_nanos(d) / 1_000_000,
{
}

} // verus!
