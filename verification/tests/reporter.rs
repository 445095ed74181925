use rench::cli::Args;
use rench::reporter::{
    byte_scale, count_scale, duration_text, error_rows, header_plan, shows_latency, status_rows,
    time_scale, ByteScale, CountScale, DurationText, StatusClass, TimeScale,
};
use rench::stats::{AggregatedStats, ErrorKind, Outcome, WorkerStats};
use std::time::Duration;

#[test]
fn durations_are_written_by_size() {
    assert_eq!(
        duration_text(&Duration::from_secs(125)),
        DurationText::MinutesSeconds { minutes: 2, seconds: 5 }
    );
    assert_eq!(
        duration_text(&Duration::from_secs(60)),
        DurationText::MinutesSeconds { minutes: 1, seconds: 0 }
    );
    assert_eq!(duration_text(&Duration::from_millis(2500)), DurationText::Seconds);
    assert_eq!(
        duration_text(&Duration::from_millis(999)),
        DurationText::Milliseconds { millis: 999 }
    );
}

#[test]
fn scales_follow_thresholds() {
    assert_eq!(time_scale(999), TimeScale::Microseconds);
    assert_eq!(time_scale(1_000), TimeScale::Milliseconds);
    assert_eq!(time_scale(1_000_000), TimeScale::Seconds);
    assert_eq!(TimeScale::Milliseconds.divisor(), 1_000);
    assert_eq!(count_scale(999), CountScale::Units);
    assert_eq!(count_scale(1_000), CountScale::Thousands);
    assert_eq!(count_scale(2_500_000), CountScale::Millions);
    assert_eq!(CountScale::Millions.divisor(), 1_000_000);
    assert_eq!(byte_scale(1_023), ByteScale::Units);
    assert_eq!(byte_scale(1_024), ByteScale::Kilobytes);
    assert_eq!(byte_scale(1_048_576), ByteScale::Megabytes);
    assert_eq!(byte_scale(1_073_741_824), ByteScale::Gigabytes);
    assert_eq!(ByteScale::Megabytes.divisor(), 1_048_576);
}

#[test]
fn header_plan_follows_options() {
    let mut a = Args {
        url: "http://localhost".to_string(),
        connections: 50,
        requests: 0,
        duration: Duration::from_secs(10),
        threads: 0,
        method: "GET".to_string(),
        headers: vec![],
        body: None,
        body_file: None,
        http2: false,
        rate: 0,
        timeout: Duration::from_secs(5),
        insecure: false,
        latency: false,
    };
    let p = header_plan(&a);
    assert_eq!(p.rate_limit, None);
    assert_eq!(p.protocol, "HTTP/1.1");
    assert!(!p.tls_warning);
    a.rate = 5000;
    a.http2 = true;
    a.insecure = true;
    let p = header_plan(&a);
    assert_eq!(p.rate_limit, Some(5000));
    assert_eq!(p.protocol, "HTTP/2");
    assert!(p.tls_warning);
}

#[test]
fn report_rows_skip_empty_classes() {
    let mut w = WorkerStats::new();
    w.record_outcome(Outcome::Response { status: 200, body_len: 1, latency: Duration::from_micros(5) });
    w.record_outcome(Outcome::Response { status: 404, body_len: 1, latency: Duration::from_micros(5) });
    w.record_outcome(Outcome::Timeout);
    let agg = AggregatedStats::merge(vec![w], Duration::from_secs(1));
    assert_eq!(status_rows(&agg), vec![(StatusClass::Success, 1), (StatusClass::ClientError, 1)]);
    assert_eq!(error_rows(&agg), vec![(ErrorKind::Timeout, 1)]);
    assert!(shows_latency(&agg));

    let empty = AggregatedStats::merge(vec![], Duration::from_secs(1));
    assert!(status_rows(&empty).is_empty());
    assert!(error_rows(&empty).is_empty());
    assert!(!shows_latency(&empty));
}
