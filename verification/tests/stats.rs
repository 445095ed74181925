use rench::counter::{claim_granted, may_send, take_one, LiveStats, RequestCounter};
use rench::stats::{AggregatedStats, ErrorKind, LiveDelta, Outcome, WorkerStats};
use std::sync::atomic::Ordering;
use std::time::Duration;

#[test]
fn new_worker_is_empty() {
    let w = WorkerStats::new();
    assert_eq!(w.requests_sent, 0);
    assert_eq!(w.status_2xx + w.status_3xx + w.status_4xx + w.status_5xx, 0);
    assert_eq!(w.latency_hist.hdr.len(), 0);
    assert_eq!(w.latency_hist.hdr.low(), 1);
    assert_eq!(w.latency_hist.hdr.high(), 60_000_000);
    assert_eq!(w.latency_hist.hdr.sigfig(), 3);
}

#[test]
fn statuses_fall_into_classes() {
    let mut w = WorkerStats::new();
    for s in [200, 204, 301, 404, 418, 500, 503, 101, 600] {
        w.record_status(s);
    }
    assert_eq!(w.status_2xx, 2);
    assert_eq!(w.status_3xx, 1);
    assert_eq!(w.status_4xx, 2);
    assert_eq!(w.status_5xx, 2);
    assert_eq!(w.requests_sent, 9);
}

#[test]
fn errors_are_counted_by_kind() {
    let mut w = WorkerStats::new();
    w.record_error(ErrorKind::Connect);
    w.record_error(ErrorKind::Timeout);
    w.record_error(ErrorKind::Timeout);
    w.record_error(ErrorKind::Read);
    assert_eq!((w.connect_errors, w.read_errors, w.timeout_errors), (1, 1, 2));
    assert_eq!(w.requests_sent, 4);
}

#[test]
fn latencies_are_clamped_into_range() {
    let mut w = WorkerStats::new();
    w.record_latency(Duration::from_nanos(10));
    assert_eq!(w.latency_hist.hdr.len(), 1);
    assert_eq!(w.latency_hist.hdr.max(), 1);
    w.record_latency(Duration::from_secs(3600));
    assert_eq!(w.latency_hist.hdr.len(), 2);
    assert!(w.latency_hist.hdr.equivalent(w.latency_hist.hdr.max(), 60_000_000));
    w.record_latency(Duration::from_micros(1500));
    assert_eq!(w.latency_hist.hdr.len(), 3);
    assert_eq!(w.latency_hist.hdr.count_at(1500), 1);
    assert_eq!(w.requests_sent, 0);
}

#[test]
fn outcomes_update_stats_and_live_counters() {
    let mut w = WorkerStats::new();
    let d = w.record_outcome(Outcome::Response {
        status: 201,
        body_len: 512,
        latency: Duration::from_micros(250),
    });
    assert_eq!(d, LiveDelta { requests: 1, errors: 0, bytes: 512 });
    assert_eq!(w.status_2xx, 1);
    assert_eq!(w.bytes_received, 512);
    assert_eq!(w.latency_hist.hdr.len(), 1);
    assert_eq!(w.latency_hist.hdr.count_at(250), 1);

    let d = w.record_outcome(Outcome::Timeout);
    assert_eq!(d, LiveDelta { requests: 1, errors: 1, bytes: 0 });
    let d = w.record_outcome(Outcome::ReadFailed);
    assert_eq!(d, LiveDelta { requests: 1, errors: 1, bytes: 0 });
    let d = w.record_outcome(Outcome::ConnectFailed);
    assert_eq!(d, LiveDelta { requests: 1, errors: 1, bytes: 0 });
    let d = w.record_outcome(Outcome::Unbuildable);
    assert_eq!(d, LiveDelta { requests: 0, errors: 0, bytes: 0 });
    assert_eq!((w.connect_errors, w.read_errors, w.timeout_errors), (2, 1, 1));
    assert_eq!(w.requests_sent, 5);
    assert_eq!(w.latency_hist.hdr.len(), 1);
}

#[test]
fn merge_adds_up_workers() {
    let mut a = WorkerStats::new();
    a.record_outcome(Outcome::Response { status: 200, body_len: 10, latency: Duration::from_micros(100) });
    a.record_outcome(Outcome::Timeout);
    let mut b = WorkerStats::new();
    b.record_outcome(Outcome::Response { status: 503, body_len: 7, latency: Duration::from_micros(900) });
    b.record_outcome(Outcome::ConnectFailed);
    b.record_outcome(Outcome::ReadFailed);
    let agg = AggregatedStats::merge(vec![a, b], Duration::from_secs(2));
    assert_eq!(agg.total_requests, 5);
    assert_eq!(agg.status_2xx, 1);
    assert_eq!(agg.status_5xx, 1);
    assert_eq!(agg.bytes_received, 17);
    assert_eq!(agg.total_errors(), 3);
    assert_eq!(agg.latency_hist.hdr.len(), 2);
    assert_eq!(agg.latency_hist.hdr.count_at(100), 1);
    assert_eq!(agg.latency_hist.hdr.count_at(900), 1);
    assert_eq!(agg.elapsed, Duration::from_secs(2));
}

#[test]
fn merge_of_nothing_is_empty() {
    let agg = AggregatedStats::merge(vec![], Duration::from_millis(5));
    assert_eq!(agg.total_requests, 0);
    assert_eq!(agg.total_errors(), 0);
    assert_eq!(agg.latency_hist.hdr.len(), 0);
}

#[test]
fn counter_grants_its_budget() {
    let c = RequestCounter::new(2);
    assert!(c.try_acquire());
    assert!(c.try_acquire());
    assert!(!c.try_acquire());
    assert!(!c.try_acquire());
}

#[test]
fn counter_without_limit_always_grants() {
    let c = RequestCounter::new(0);
    for _ in 0..1000 {
        assert!(c.try_acquire());
    }
}

#[test]
fn take_one_steps_down_to_zero() {
    assert_eq!(take_one(3), Some(2));
    assert_eq!(take_one(1), Some(0));
    assert_eq!(take_one(0), None);
}

#[test]
fn may_send_checks_stop_first() {
    let c = RequestCounter::new(1);
    assert!(!may_send(true, &c));
    assert!(may_send(false, &c));
    assert!(!may_send(false, &c));
    let u = RequestCounter::new(0);
    assert!(may_send(false, &u));
}

#[test]
fn live_stats_start_at_zero() {
    let l = LiveStats::new();
    assert_eq!(l.requests.load(Ordering::Relaxed), 0);
    assert_eq!(l.errors.load(Ordering::Relaxed), 0);
    assert_eq!(l.bytes.load(Ordering::Relaxed), 0);
}

#[test]
fn claim_results_map_to_grants() {
    assert!(claim_granted(Ok(5)));
    assert!(!claim_granted(Err(0)));
}

#[test]
fn sequences_of_calls_are_counted() {
    let mut w = WorkerStats::new();
    w.record_latency(Duration::from_micros(10));
    w.record_status(200);
    w.record_status(102);
    w.record_error(ErrorKind::Read);
    w.record_latency(Duration::from_micros(20));
    w.record_status(599);
    w.record_status(600);
    assert_eq!(w.requests_sent, 5);
    assert_eq!(w.connect_errors + w.read_errors + w.timeout_errors, 1);
    assert_eq!(w.status_2xx + w.status_3xx + w.status_4xx + w.status_5xx, 2);
    assert_eq!(w.latency_hist.hdr.len(), 2);
}

fn sample(status: u16, micros: u64) -> WorkerStats {
    let mut w = WorkerStats::new();
    w.record_outcome(Outcome::Response { status, body_len: 3, latency: Duration::from_micros(micros) });
    w.record_outcome(Outcome::ReadFailed);
    w
}

#[test]
fn merging_a_fresh_worker_changes_nothing() {
    let a = AggregatedStats::merge(vec![sample(200, 40), sample(404, 70)], Duration::from_secs(1));
    let b = AggregatedStats::merge(
        vec![sample(200, 40), sample(404, 70), WorkerStats::new()],
        Duration::from_secs(1),
    );
    assert_eq!(a.total_requests, b.total_requests);
    assert_eq!((a.status_2xx, a.status_4xx), (b.status_2xx, b.status_4xx));
    assert_eq!(a.total_errors(), b.total_errors());
    assert_eq!(a.bytes_received, b.bytes_received);
    assert_eq!(a.latency_hist.hdr.len(), b.latency_hist.hdr.len());
    assert_eq!(a.latency_hist.hdr.count_at(70), b.latency_hist.hdr.count_at(70));
}

#[test]
fn merge_does_not_depend_on_order() {
    let a = AggregatedStats::merge(vec![sample(200, 40), sample(503, 70)], Duration::from_secs(1));
    let b = AggregatedStats::merge(vec![sample(503, 70), sample(200, 40)], Duration::from_secs(1));
    assert_eq!(a.total_requests, b.total_requests);
    assert_eq!((a.status_2xx, a.status_5xx), (b.status_2xx, b.status_5xx));
    assert_eq!(a.read_errors, b.read_errors);
    assert_eq!(a.bytes_received, b.bytes_received);
    assert_eq!(a.latency_hist.hdr.count_at(40), b.latency_hist.hdr.count_at(40));
    assert_eq!(a.latency_hist.hdr.count_at(70), b.latency_hist.hdr.count_at(70));
}

#[test]
fn latencies_share_buckets() {
    let mut w = WorkerStats::new();
    w.record_latency(Duration::from_micros(2048));
    w.record_latency(Duration::from_micros(2049));
    assert_eq!(w.latency_hist.hdr.len(), 2);
    assert_eq!(w.latency_hist.hdr.count_at(2048), 2);
    assert_eq!(w.latency_hist.hdr.lowest_equivalent(2049), 2048);
}
