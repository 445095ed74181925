//! What the workers count during a run, and the totals over all of them.

use crate::duration::{duration_as_micros, duration_nanos};
use crate::histogram::{hdr_lowest_equivalent, hist_bucket, hist_config, hist_values, LatencyHistogram};
use std::time::Duration;
use vstd::multiset::Multiset;
use vstd::prelude::*;

verus! {

/// The smallest latency, in microseconds, that a histogram keeps apart from 0.
pub const LATENCY_LOW: u64 = 1;

/// The largest latency, in microseconds, that a histogram tracks (60 s).
pub const LATENCY_HIGH: u64 = 60_000_000;

/// The significant decimal digits that a latency histogram keeps.
pub const LATENCY_SIGFIG: u8 = 3;

/// Whether `h` was made as a latency histogram: from 1 µs to 60 s with three
/// significant digits, not growing.
pub open spec fn is_latency_histogram(h: LatencyHistogram) -> bool {
    hist_config(h) == (LATENCY_LOW, LATENCY_HIGH, LATENCY_SIGFIG, false)
}

/// A new, empty latency histogram.
pub fn new_latency_histogram() -> (h: LatencyHistogram)
    ensures
        hist_values(h) =~= Multiset::empty(),
        is_latency_histogram(h),
{
    LatencyHistogram::new_with_bounds(LATENCY_LOW, LATENCY_HIGH, LATENCY_SIGFIG).unwrap()
}

/// The kinds of failed request.
#[derive(Debug, Clone, Copy, PartialEq, Eq, Structural)]
pub enum ErrorKind {
    Connect,
    Read,
    Timeout,
}

/// The counters of a worker, or of all workers together, as numbers.
pub struct Tally {
    pub status_2xx: nat,
    pub status_3xx: nat,
    pub status_4xx: nat,
    pub status_5xx: nat,
    pub connect_errors: nat,
    pub read_errors: nat,
    pub timeout_errors: nat,
    pub bytes_received: nat,
    pub requests_sent: nat,
}

/// The tally with every counter at zero.
pub open spec fn zero_tally() -> Tally {
    Tally {
        status_2xx: 0,
        status_3xx: 0,
        status_4xx: 0,
        status_5xx: 0,
        connect_errors: 0,
        read_errors: 0,
        timeout_errors: 0,
        bytes_received: 0,
        requests_sent: 0,
    }
}

/// Two tallies added counter by counter.
pub open spec fn tally_plus(a: Tally, b: Tally) -> Tally {
    Tally {
        status_2xx: a.status_2xx + b.status_2xx,
        status_3xx: a.status_3xx + b.status_3xx,
        status_4xx: a.status_4xx + b.status_4xx,
        status_5xx: a.status_5xx + b.status_5xx,
        connect_errors: a.connect_errors + b.connect_errors,
        read_errors: a.read_errors + b.read_errors,
        timeout_errors: a.timeout_errors + b.timeout_errors,
        bytes_received: a.bytes_received + b.bytes_received,
        requests_sent: a.requests_sent + b.requests_sent,
    }
}

/// Whether every counter of `t` fits in a `u64`.
pub open spec fn tally_fits(t: Tally) -> bool {
    &&& t.status_2xx <= u64::MAX
    &&& t.status_3xx <= u64::MAX
    &&& t.status_4xx <= u64::MAX
    &&& t.status_5xx <= u64::MAX
    &&& t.connect_errors <= u64::MAX
    &&& t.read_errors <= u64::MAX
    &&& t.timeout_errors <= u64::MAX
    &&& t.bytes_received <= u64::MAX
    &&& t.requests_sent <= u64::MAX
}

/// The failed requests of `t`.
pub open spec fn tally_errors(t: Tally) -> nat {
    t.connect_errors + t.read_errors + t.timeout_errors
}

/// The requests of `t` that were sorted into a status class or an error kind.
pub open spec fn tally_classified(t: Tally) -> nat {
    t.status_2xx + t.status_3xx + t.status_4xx + t.status_5xx + tally_errors(t)
}

/// No request is counted in a class or as an error that was not counted as
/// sent.
pub open spec fn tally_consistent(t: Tally) -> bool {
    tally_classified(t) <= t.requests_sent
}

/// `t` after a response with `status`: one more request sent, and one more in
/// the status's class where it is 2xx to 5xx.
pub open spec fn tally_after_status(t: Tally, status: u16) -> Tally {
    let class = status / 100;
    Tally {
        status_2xx: if class == 2 { t.status_2xx + 1 } else { t.status_2xx },
        status_3xx: if class == 3 { t.status_3xx + 1 } else { t.status_3xx },
        status_4xx: if class == 4 { t.status_4xx + 1 } else { t.status_4xx },
        status_5xx: if class == 5 { t.status_5xx + 1 } else { t.status_5xx },
        requests_sent: t.requests_sent + 1,
        ..t
    }
}

/// `t` after a failed request of `kind`: one more request sent and one more
/// error of that kind.
pub open spec fn tally_after_error(t: Tally, kind: ErrorKind) -> Tally {
    Tally {
        connect_errors: if kind == ErrorKind::Connect {
            t.connect_errors + 1
        } else {
            t.connect_errors
        },
        read_errors: if kind == ErrorKind::Read {
            t.read_errors + 1
        } else {
            t.read_errors
        },
        timeout_errors: if kind == ErrorKind::Timeout {
            t.timeout_errors + 1
        } else {
            t.timeout_errors
        },
        requests_sent: t.requests_sent + 1,
        ..t
    }
}

/// The latency, in whole microseconds, that is recorded for `d`: its whole
/// microseconds cut to 64 bits, then held within 1 µs and 60 s.
pub open spec fn recorded_micros(d: Duration) -> u64 {
    let m = (duration_nanos(d) / 1000) as u64;
    if m < LATENCY_LOW {
        LATENCY_LOW
    } else if m > LATENCY_HIGH {
        LATENCY_HIGH
    } else {
        m
    }
}

/// Per-worker stats collected during the benchmark run.
#[derive(Debug)]
pub struct WorkerStats {
    pub latency_hist: LatencyHistogram,
    pub status_2xx: u64,
    pub status_3xx: u64,
    pub status_4xx: u64,
    pub status_5xx: u64,
    pub connect_errors: u64,
    pub read_errors: u64,
    pub timeout_errors: u64,
    pub bytes_received: u64,
    pub requests_sent: u64,
}

impl WorkerStats {
    /// The counters of this worker.
    pub open spec fn tally(self) -> Tally {
        Tally {
            status_2xx: self.status_2xx as nat,
            status_3xx: self.status_3xx as nat,
            status_4xx: self.status_4xx as nat,
            status_5xx: self.status_5xx as nat,
            connect_errors: self.connect_errors as nat,
            read_errors: self.read_errors as nat,
            timeout_errors: self.timeout_errors as nat,
            bytes_received: self.bytes_received as nat,
            requests_sent: self.requests_sent as nat,
        }
    }

    /// Stats with nothing counted and an empty latency histogram.
    pub fn new() -> (r: Self)
        ensures
            r.tally() == zero_tally(),
            hist_values(r.latency_hist) =~= Multiset::empty(),
            is_latency_histogram(r.latency_hist),
            tally_consistent(r.tally()),
    {
        WorkerStats {
            latency_hist: new_latency_histogram(),
            status_2xx: 0,
            status_3xx: 0,
            status_4xx: 0,
            status_5xx: 0,
            connect_errors: 0,
            read_errors: 0,
            timeout_errors: 0,
            bytes_received: 0,
            requests_sent: 0,
        }
    }

    /// Records the latency of one request, in microseconds held within the
    /// histogram's range: one more in the count of its bucket, unless that
    /// count is saturated. The counters stay as they were.
    pub fn record_latency(&mut self, latency: Duration)
        ensures
            ({
                let v = recorded_micros(latency);
                let b = hist_bucket(old(self).latency_hist, v);
                let before = hist_values(old(self).latency_hist);
                let after = hist_values(final(self).latency_hist);
                &&& v <= hist_config(old(self).latency_hist).1 && before.count(b) < u64::MAX
                    ==> after =~= before.insert(b)
                &&& after =~= before.insert(b) || after =~= before
            }),
            !hist_config(old(self).latency_hist).3 ==> hist_config(final(self).latency_hist)
                == hist_config(old(self).latency_hist),
            final(self).tally() == old(self).tally(),
    {
        let micros = duration_as_micros(&latency) as u64;
        let micros = if micros < LATENCY_LOW {
            LATENCY_LOW
        } else if micros > LATENCY_HIGH {
            LATENCY_HIGH
        } else {
            micros
        };
        let _ = self.latency_hist.record(micros);
    }

    /// Counts a response with `status` in its class (2xx to 5xx; others in
    /// none) and as one more request sent.
    pub fn record_status(&mut self, status: u16)
        requires
            tally_fits(tally_after_status(old(self).tally(), status)),
        ensures
            final(self).tally() == tally_after_status(old(self).tally(), status),
            final(self).latency_hist == old(self).latency_hist,
            tally_consistent(old(self).tally()) ==> tally_consistent(final(self).tally()),
            final(self).requests_sent == old(self).requests_sent + 1,
            final(self).status_2xx == old(self).status_2xx + if status / 100 == 2 {
                1int
            } else {
                0int
            },
            final(self).status_3xx == old(self).status_3xx + if status / 100 == 3 {
                1int
            } else {
                0int
            },
            final(self).status_4xx == old(self).status_4xx + if status / 100 == 4 {
                1int
            } else {
                0int
            },
            final(self).status_5xx == old(self).status_5xx + if status / 100 == 5 {
                1int
            } else {
                0int
            },
            final(self).connect_errors == old(self).connect_errors,
            final(self).read_errors == old(self).read_errors,
            final(self).timeout_errors == old(self).timeout_errors,
            final(self).bytes_received == old(self).bytes_received,
    {
        let class = status / 100;
        if class == 2 {
            self.status_2xx = self.status_2xx + 1;
        } else if class == 3 {
            self.status_3xx = self.status_3xx + 1;
        } else if class == 4 {
            self.status_4xx = self.status_4xx + 1;
        } else if class == 5 {
            self.status_5xx = self.status_5xx + 1;
        }
        self.requests_sent = self.requests_sent + 1;
    }

    /// Counts a failed request of `kind`, and one more request sent.
    pub fn record_error(&mut self, kind: ErrorKind)
        requires
            tally_fits(tally_after_error(old(self).tally(), kind)),
        ensures
            final(self).tally() == tally_after_error(old(self).tally(), kind),
            final(self).latency_hist == old(self).latency_hist,
            tally_consistent(old(self).tally()) ==> tally_consistent(final(self).tally()),
    {
        match kind {
            ErrorKind::Connect => self.connect_errors = self.connect_errors + 1,
            ErrorKind::Read => self.read_errors = self.read_errors + 1,
            ErrorKind::Timeout => self.timeout_errors = self.timeout_errors + 1,
        }
        self.requests_sent = self.requests_sent + 1;
    }
}


/// What came of one request that a worker tried to send.
#[derive(Debug, Clone, Copy)]
pub enum Outcome {
    /// The request could not be built from the configuration; it was not sent.
    Unbuildable,
    /// A response with `status` and a body of `body_len` bytes came after `latency`.
    Response { status: u16, body_len: u64, latency: Duration },
    /// No response came within the timeout.
    Timeout,
    /// The connection or the request failed.
    ConnectFailed,
    /// The body of the response could not be read.
    ReadFailed,
}

/// What one outcome adds to the live counters that the progress line shows.
#[derive(Debug, Clone, Copy, PartialEq, Eq, Structural)]
pub struct LiveDelta {
    pub requests: u64,
    pub errors: u64,
    pub bytes: u64,
}

/// `t` after the outcome `o`. A request that could not be built counts as a
/// connection error.
pub open spec fn tally_after_outcome(t: Tally, o: Outcome) -> Tally {
    match o {
        Outcome::Unbuildable => tally_after_error(t, ErrorKind::Connect),
        Outcome::Response { status, body_len, latency } => {
            let u = tally_after_status(t, status);
            Tally { bytes_received: u.bytes_received + body_len as nat, ..u }
        },
        Outcome::Timeout => tally_after_error(t, ErrorKind::Timeout),
        Outcome::ConnectFailed => tally_after_error(t, ErrorKind::Connect),
        Outcome::ReadFailed => tally_after_error(t, ErrorKind::Read),
    }
}

/// What `o` adds to the live counters: a request for everything that was
/// sent, an error for every failure after sending, and the bytes of a body.
pub open spec fn live_delta(o: Outcome) -> LiveDelta {
    match o {
        Outcome::Unbuildable => LiveDelta { requests: 0, errors: 0, bytes: 0 },
        Outcome::Response { status, body_len, latency } => LiveDelta {
            requests: 1,
            errors: 0,
            bytes: body_len,
        },
        _ => LiveDelta { requests: 1, errors: 1, bytes: 0 },
    }
}

impl WorkerStats {
    /// Counts the outcome of one request, and says what it adds to the live
    /// counters. A response also records its latency.
    pub fn record_outcome(&mut self, o: Outcome) -> (d: LiveDelta)
        requires
            tally_fits(tally_after_outcome(old(self).tally(), o)),
        ensures
            d == live_delta(o),
            final(self).tally() == tally_after_outcome(old(self).tally(), o),
            final(self).requests_sent == old(self).requests_sent + 1,
            final(self).bytes_received == old(self).bytes_received + match o {
                Outcome::Response { status, body_len, latency } => body_len as int,
                _ => 0int,
            },
            match o {
                Outcome::Response { status, body_len, latency } => {
                    let v = recorded_micros(latency);
                    let b = hist_bucket(old(self).latency_hist, v);
                    let before = hist_values(old(self).latency_hist);
                    let after = hist_values(final(self).latency_hist);
                    &&& v <= hist_config(old(self).latency_hist).1 && before.count(b) < u64::MAX
                        ==> after =~= before.insert(b)
                    &&& after =~= before.insert(b) || after =~= before
                    &&& !hist_config(old(self).latency_hist).3 ==> hist_config(
                        final(self).latency_hist,
                    ) == hist_config(old(self).latency_hist)
                },
                _ => final(self).latency_hist == old(self).latency_hist,
            },
            tally_consistent(old(self).tally()) ==> tally_consistent(final(self).tally()),
    {
        match o {
            Outcome::Unbuildable => {
                self.record_error(ErrorKind::Connect);
                LiveDelta { requests: 0, errors: 0, bytes: 0 }
            },
            Outcome::Response { status, body_len, latency } => {
                self.record_latency(latency);
                self.record_status(status);
                self.bytes_received = self.bytes_received + body_len;
                LiveDelta { requests: 1, errors: 0, bytes: body_len }
            },
            Outcome::Timeout => {
                self.record_error(ErrorKind::Timeout);
                LiveDelta { requests: 1, errors: 1, bytes: 0 }
            },
            Outcome::ConnectFailed => {
                self.record_error(ErrorKind::Connect);
                LiveDelta { requests: 1, errors: 1, bytes: 0 }
            },
            Outcome::ReadFailed => {
                self.record_error(ErrorKind::Read);
                LiveDelta { requests: 1, errors: 1, bytes: 0 }
            },
        }
    }
}

/// The counters of all of `ws` added up.
pub open spec fn sum_tally(ws: Seq<WorkerStats>) -> Tally
    decreases ws.len(),
{
    if ws.len() == 0 {
        zero_tally()
    } else {
        tally_plus(sum_tally(ws.drop_last()), ws.last().tally())
    }
}

/// The latencies recorded by all of `ws`.
pub open spec fn sum_values(ws: Seq<WorkerStats>) -> Multiset<u64>
    decreases ws.len(),
{
    if ws.len() == 0 {
        Multiset::empty()
    } else {
        sum_values(ws.drop_last()).add(hist_values(ws.last().latency_hist))
    }
}

/// The failed requests of each of `ws`, added up.
pub open spec fn sum_errors(ws: Seq<WorkerStats>) -> nat
    decreases ws.len(),
{
    if ws.len() == 0 {
        0
    } else {
        sum_errors(ws.drop_last()) + tally_errors(ws.last().tally())
    }
}

/// Every counter of `a` is at most that of `b`.
pub open spec fn tally_le(a: Tally, b: Tally) -> bool {
    &&& a.status_2xx <= b.status_2xx
    &&& a.status_3xx <= b.status_3xx
    &&& a.status_4xx <= b.status_4xx
    &&& a.status_5xx <= b.status_5xx
    &&& a.connect_errors <= b.connect_errors
    &&& a.read_errors <= b.read_errors
    &&& a.timeout_errors <= b.timeout_errors
    &&& a.bytes_received <= b.bytes_received
    &&& a.requests_sent <= b.requests_sent
}

proof fn lemma_prefix_tally_le(ws: Seq<WorkerStats>, i: int)
    requires
        0 <= i <= ws.len(),
    ensures
        tally_le(sum_tally(ws.take(i)), sum_tally(ws)),
    decreases ws.len(),
{
    if i == ws.len() {
        assert(ws.take(i) =~= ws);
    } else {
        let d = ws.drop_last();
        lemma_prefix_tally_le(d, i);
        assert(d.take(i) =~= ws.take(i));
    }
}

proof fn lemma_prefix_values_le(ws: Seq<WorkerStats>, i: int)
    requires
        0 <= i <= ws.len(),
    ensures
        forall|b: u64| sum_values(ws.take(i)).count(b) <= sum_values(ws).count(b),
    decreases ws.len(),
{
    if i == ws.len() {
        assert(ws.take(i) =~= ws);
    } else {
        let d = ws.drop_last();
        lemma_prefix_values_le(d, i);
        assert(d.take(i) =~= ws.take(i));
        assert forall|b: u64| sum_values(ws.take(i)).count(b) <= sum_values(ws).count(b) by {
            assert(sum_values(ws) == sum_values(d).add(hist_values(ws.last().latency_hist)));
            assert(sum_values(ws).count(b) == sum_values(d).count(b) + hist_values(
                ws.last().latency_hist,
            ).count(b));
        }
    }
}

/// Aggregated results from all workers.
pub struct AggregatedStats {
    pub latency_hist: LatencyHistogram,
    pub total_requests: u64,
    pub status_2xx: u64,
    pub status_3xx: u64,
    pub status_4xx: u64,
    pub status_5xx: u64,
    pub connect_errors: u64,
    pub read_errors: u64,
    pub timeout_errors: u64,
    pub bytes_received: u64,
    pub elapsed: Duration,
}

impl AggregatedStats {
    /// The counters of the aggregate; its requests sent are its total requests.
    pub open spec fn tally(self) -> Tally {
        Tally {
            status_2xx: self.status_2xx as nat,
            status_3xx: self.status_3xx as nat,
            status_4xx: self.status_4xx as nat,
            status_5xx: self.status_5xx as nat,
            connect_errors: self.connect_errors as nat,
            read_errors: self.read_errors as nat,
            timeout_errors: self.timeout_errors as nat,
            bytes_received: self.bytes_received as nat,
            requests_sent: self.total_requests as nat,
        }
    }

    /// Adds up the stats of all workers of a run that took `elapsed`. Every
    /// counter of the result is the sum of the workers' counters, and where
    /// all workers' histograms are latency histograms and no bucket's summed
    /// count exceeds `u64::MAX`, its histogram's counts are the sums of theirs.
    pub fn merge(workers: Vec<WorkerStats>, elapsed: Duration) -> (r: Self)
        requires
            tally_fits(sum_tally(workers@)),
        ensures
            r.tally() == sum_tally(workers@),
            r.elapsed == elapsed,
            is_latency_histogram(r.latency_hist),
            (forall|i: int| 0 <= i < workers@.len() ==> is_latency_histogram(
                #[trigger] workers@[i].latency_hist,
            )) && (forall|b: u64| sum_values(workers@).count(b) <= u64::MAX) ==> hist_values(
                r.latency_hist,
            ) =~= sum_values(workers@),
            (forall|i: int| 0 <= i < workers@.len() ==> tally_consistent(
                #[trigger] workers@[i].tally(),
            )) ==> tally_consistent(r.tally()),
            tally_errors(r.tally()) == sum_errors(workers@),
    {
        let mut agg = AggregatedStats {
            latency_hist: new_latency_histogram(),
            total_requests: 0,
            status_2xx: 0,
            status_3xx: 0,
            status_4xx: 0,
            status_5xx: 0,
            connect_errors: 0,
            read_errors: 0,
            timeout_errors: 0,
            bytes_received: 0,
            elapsed,
        };
        let n = workers.len();
        let mut i: usize = 0;
        assert(workers@.take(0) =~= Seq::<WorkerStats>::empty());
        while i < n
            invariant
                n == workers@.len(),
                0 <= i <= n,
                tally_fits(sum_tally(workers@)),
                agg.tally() == sum_tally(workers@.take(i as int)),
                agg.elapsed == elapsed,
                is_latency_histogram(agg.latency_hist),
                (forall|j: int| 0 <= j < workers@.len() ==> is_latency_histogram(
                    #[trigger] workers@[j].latency_hist,
                )) && (forall|b: u64| sum_values(workers@).count(b) <= u64::MAX) ==> hist_values(
                    agg.latency_hist,
                ) =~= sum_values(workers@.take(i as int)),
            decreases n - i,
        {
            let w = &workers[i];
            proof {
                lemma_prefix_tally_le(workers@, i + 1);
                lemma_prefix_values_le(workers@, i + 1);
                assert(workers@.take(i + 1).drop_last() =~= workers@.take(i as int));
                assert(workers@.take(i + 1).last() == workers@[i as int]);
                let pre = sum_values(workers@.take(i as int));
                let own = hist_values(workers@[i as int].latency_hist);
                assert(sum_values(workers@.take(i + 1)) == pre.add(own));
                assert forall|b: u64|
                    pre.count(b) + own.count(b) == #[trigger] sum_values(workers@.take(i + 1)).count(
                        b,
                    ) by {}
                if forall|b: u64| sum_values(workers@).count(b) <= u64::MAX {
                    assert forall|b: u64| pre.count(b) + own.count(b) <= u64::MAX by {
                        assert(sum_values(workers@.take(i + 1)).count(b) <= sum_values(
                            workers@,
                        ).count(b));
                        assert(sum_values(workers@).count(b) <= u64::MAX);
                    }
                }
            }
            let _ = agg.latency_hist.add(&w.latency_hist);
            agg.total_requests = agg.total_requests + w.requests_sent;
            agg.status_2xx = agg.status_2xx + w.status_2xx;
            agg.status_3xx = agg.status_3xx + w.status_3xx;
            agg.status_4xx = agg.status_4xx + w.status_4xx;
            agg.status_5xx = agg.status_5xx + w.status_5xx;
            agg.connect_errors = agg.connect_errors + w.connect_errors;
            agg.read_errors = agg.read_errors + w.read_errors;
            agg.timeout_errors = agg.timeout_errors + w.timeout_errors;
            agg.bytes_received = agg.bytes_received + w.bytes_received;
            i = i + 1;
        }
        assert(workers@.take(n as int) =~= workers@);
        proof {
            lemma_merged_errors(workers@);
            if forall|j: int| 0 <= j < workers@.len() ==> tally_consistent(
                #[trigger] workers@[j].tally(),
            ) {
                lemma_merged_consistent(workers@);
            }
        }
        agg
    }

    /// The failed requests of all kinds.
    pub fn total_errors(&self) -> (r: u64)
        requires
            tally_errors(self.tally()) <= u64::MAX,
        ensures
            r == tally_errors(self.tally()),
    {
        self.connect_errors + self.read_errors + self.timeout_errors
    }
}

/// The failed requests counted by merged stats are the failed requests of
/// each worker, added up.
pub proof fn lemma_merged_errors(ws: Seq<WorkerStats>)
    ensures
        tally_errors(sum_tally(ws)) == sum_errors(ws),
    decreases ws.len(),
{
    if ws.len() > 0 {
        lemma_merged_errors(ws.drop_last());
    }
}

/// Where every worker counted no more requests in classes and errors than it
/// sent, so do the merged stats.
pub proof fn lemma_merged_consistent(ws: Seq<WorkerStats>)
    requires
        forall|i: int| 0 <= i < ws.len() ==> tally_consistent(#[trigger] ws[i].tally()),
    ensures
        tally_consistent(sum_tally(ws)),
    decreases ws.len(),
{
    if ws.len() > 0 {
        let d = ws.drop_last();
        assert forall|i: int| 0 <= i < d.len() implies tally_consistent(#[trigger] d[i].tally()) by {
            assert(d[i] == ws[i]);
        }
        lemma_merged_consistent(d);
        assert(tally_consistent(ws[ws.len() - 1].tally()));
    }
}

/// The tally `t` after the outcomes `os`, one after the other.
pub open spec fn tally_after_outcomes(t: Tally, os: Seq<Outcome>) -> Tally
    decreases os.len(),
{
    if os.len() == 0 {
        t
    } else {
        tally_after_outcome(tally_after_outcomes(t, os.drop_last()), os.last())
    }
}

/// The requests that the live counter gains from the outcomes `os`.
pub open spec fn live_requests(os: Seq<Outcome>) -> nat
    decreases os.len(),
{
    if os.len() == 0 {
        0
    } else {
        live_requests(os.drop_last()) + live_delta(os.last()).requests as nat
    }
}

/// The errors that the live counter gains from the outcomes `os`.
pub open spec fn live_errors(os: Seq<Outcome>) -> nat
    decreases os.len(),
{
    if os.len() == 0 {
        0
    } else {
        live_errors(os.drop_last()) + live_delta(os.last()).errors as nat
    }
}

/// The outcomes among `os` whose request could not be built.
pub open spec fn unbuildable(os: Seq<Outcome>) -> nat
    decreases os.len(),
{
    if os.len() == 0 {
        0
    } else {
        unbuildable(os.drop_last()) + if os.last() is Unbuildable {
            1nat
        } else {
            0nat
        }
    }
}

/// Every outcome counts one request as sent; the live request counter
/// gains one for each, but for the requests that could not be built, and the
/// live error counter gains one for each error counted, but for those.
pub proof fn lemma_live_counts(t: Tally, os: Seq<Outcome>)
    ensures
        tally_after_outcomes(t, os).requests_sent == t.requests_sent + os.len(),
        live_requests(os) + unbuildable(os) == os.len(),
        tally_errors(tally_after_outcomes(t, os)) == tally_errors(t) + live_errors(os)
            + unbuildable(os),
    decreases os.len(),
{
    if os.len() > 0 {
        lemma_live_counts(t, os.drop_last());
    }
}

/// One call that records into a worker's stats.
#[derive(Debug, Clone, Copy)]
pub enum StatsCall {
    /// `record_latency(d)`
    Latency(Duration),
    /// `record_status(s)`
    Status(u16),
    /// `record_error(k)`
    Error(ErrorKind),
}

/// The counters `t` after the calls `cs`, one after the other, as the
/// contracts of `record_status` and `record_error` state them; a latency
/// leaves them as they are.
pub open spec fn tally_after_calls(t: Tally, cs: Seq<StatsCall>) -> Tally
    decreases cs.len(),
{
    if cs.len() == 0 {
        t
    } else {
        let u = tally_after_calls(t, cs.drop_last());
        match cs.last() {
            StatsCall::Latency(_) => u,
            StatsCall::Status(status) => tally_after_status(u, status),
            StatsCall::Error(kind) => tally_after_error(u, kind),
        }
    }
}

/// The counts `m` of a latency histogram after the calls `cs`, as the
/// contract of `record_latency` states them for a latency histogram whose
/// counts do not saturate: one more in the bucket of each latency.
pub open spec fn values_after_calls(m: Multiset<u64>, cs: Seq<StatsCall>) -> Multiset<u64>
    decreases cs.len(),
{
    if cs.len() == 0 {
        m
    } else {
        let u = values_after_calls(m, cs.drop_last());
        match cs.last() {
            StatsCall::Latency(d) => u.insert(
                hdr_lowest_equivalent(LATENCY_LOW, LATENCY_SIGFIG, recorded_micros(d)),
            ),
            _ => u,
        }
    }
}

/// The calls among `cs` that record a status.
pub open spec fn status_calls(cs: Seq<StatsCall>) -> nat
    decreases cs.len(),
{
    if cs.len() == 0 {
        0
    } else {
        status_calls(cs.drop_last()) + if cs.last() is Status {
            1nat
        } else {
            0nat
        }
    }
}

/// The calls among `cs` that record a status from 200 to 599.
pub open spec fn classified_status_calls(cs: Seq<StatsCall>) -> nat
    decreases cs.len(),
{
    if cs.len() == 0 {
        0
    } else {
        classified_status_calls(cs.drop_last()) + match cs.last() {
            StatsCall::Status(status) => if 200 <= status <= 599 {
                1nat
            } else {
                0nat
            },
            _ => 0nat,
        }
    }
}

/// The calls among `cs` that record an error.
pub open spec fn error_calls(cs: Seq<StatsCall>) -> nat
    decreases cs.len(),
{
    if cs.len() == 0 {
        0
    } else {
        error_calls(cs.drop_last()) + if cs.last() is Error {
            1nat
        } else {
            0nat
        }
    }
}

/// The calls among `cs` that record a latency.
pub open spec fn latency_calls(cs: Seq<StatsCall>) -> nat
    decreases cs.len(),
{
    if cs.len() == 0 {
        0
    } else {
        latency_calls(cs.drop_last()) + if cs.last() is Latency {
            1nat
        } else {
            0nat
        }
    }
}

/// The status classes of `t` added up.
pub open spec fn tally_statuses(t: Tally) -> nat {
    t.status_2xx + t.status_3xx + t.status_4xx + t.status_5xx
}

/// Over any sequence of recording calls on stats as `WorkerStats::new` makes
/// them: the requests sent are the statuses and errors recorded, the errors
/// are the errors recorded, the status classes hold the statuses from 200 to
/// 599, and the histogram holds one latency per latency recorded.
pub proof fn lemma_calls_counted(cs: Seq<StatsCall>)
    ensures
        tally_after_calls(zero_tally(), cs).requests_sent == status_calls(cs) + error_calls(cs),
        tally_errors(tally_after_calls(zero_tally(), cs)) == error_calls(cs),
        tally_statuses(tally_after_calls(zero_tally(), cs)) == classified_status_calls(cs),
        values_after_calls(Multiset::empty(), cs).len() == latency_calls(cs),
    decreases cs.len(),
{
    if cs.len() > 0 {
        lemma_calls_counted(cs.drop_last());
    }
}

/// The latency recorded for any duration lies within a latency histogram's
/// range, so `record_latency` on a latency histogram always takes it.
pub proof fn lemma_latency_always_taken(d: Duration)
    ensures
        recorded_micros(d) <= LATENCY_HIGH,
        LATENCY_LOW <= recorded_micros(d),
{
}

/// Merging no workers gives nothing counted and no latencies.
pub proof fn lemma_merge_nothing()
    ensures
        sum_tally(Seq::<WorkerStats>::empty()) == zero_tally(),
        sum_values(Seq::<WorkerStats>::empty()) =~= Multiset::<u64>::empty(),
{
}

/// Merging one more worker that has counted nothing and recorded no latency
/// changes no total.
pub proof fn lemma_merge_fresh_worker(ws: Seq<WorkerStats>, w: WorkerStats)
    requires
        w.tally() == zero_tally(),
        hist_values(w.latency_hist) =~= Multiset::<u64>::empty(),
    ensures
        sum_tally(ws.push(w)) == sum_tally(ws),
        sum_values(ws.push(w)) =~= sum_values(ws),
{
    assert(ws.push(w).drop_last() =~= ws);
    assert(ws.push(w).last() == w);
}

proof fn lemma_sum_remove(ws: Seq<WorkerStats>, k: int)
    requires
        0 <= k < ws.len(),
    ensures
        sum_tally(ws) == tally_plus(sum_tally(ws.remove(k)), ws[k].tally()),
        sum_values(ws) =~= sum_values(ws.remove(k)).add(hist_values(ws[k].latency_hist)),
    decreases ws.len(),
{
    if k == ws.len() - 1 {
        assert(ws.remove(k) =~= ws.drop_last());
    } else {
        let d = ws.drop_last();
        lemma_sum_remove(d, k);
        assert(ws.remove(k).drop_last() =~= d.remove(k));
        assert(ws.remove(k).last() == ws.last());
        assert(d[k] == ws[k]);
        let a = sum_values(d.remove(k));
        let x = hist_values(ws[k].latency_hist);
        let l = hist_values(ws.last().latency_hist);
        assert(a.add(x).add(l) =~= a.add(l).add(x));
    }
}

/// Merge totals do not depend on the order of the workers: where `vs` holds
/// the same workers as `ws`, as often each, their counters and latencies add
/// up to the same.
pub proof fn lemma_merge_order_independent(ws: Seq<WorkerStats>, vs: Seq<WorkerStats>)
    requires
        vs.to_multiset() =~= ws.to_multiset(),
    ensures
        sum_tally(vs) == sum_tally(ws),
        sum_values(vs) =~= sum_values(ws),
    decreases vs.len(),
{
    broadcast use vstd::seq_lib::group_to_multiset_ensures;

    if vs.len() == 0 {
        assert(vs.to_multiset().len() == vs.len());
        assert(ws.to_multiset().len() == ws.len());
        assert(ws.len() == 0);
        assert(ws =~= vs);
    } else {
        let x = vs.last();
        let d = vs.drop_last();
        assert(vs =~= d.push(x));
        assert(vs.to_multiset() =~= d.to_multiset().insert(x));
        assert(ws.to_multiset().count(x) > 0);
        assert(ws.contains(x));
        let k = choose|k: int| 0 <= k < ws.len() && ws[k] == x;
        assert(ws.remove(k).to_multiset() =~= ws.to_multiset().remove(x));
        assert(ws.remove(k).to_multiset() =~= d.to_multiset());
        lemma_merge_order_independent(ws.remove(k), d);
        lemma_sum_remove(ws, k);
    }
}

/// The class counter of a tally for the status class `class` (2 to 5).
pub open spec fn class_count(t: Tally, class: int) -> nat {
    if class == 2 {
        t.status_2xx
    } else if class == 3 {
        t.status_3xx
    } else if class == 4 {
        t.status_4xx
    } else {
        t.status_5xx
    }
}

/// A response with a status from 200 to 599 adds one to the counter of its
/// hundred (`status / 100`) and to the requests sent, and leaves the other
/// three class counters as they were.
pub proof fn lemma_status_counted_in_its_class(t: Tally, status: u16, class: int)
    requires
        200 <= status <= 599,
        2 <= class <= 5,
    ensures
        class_count(tally_after_status(t, status), class) == class_count(t, class) + if class
            == status / 100 {
            1int
        } else {
            0int
        },
        tally_after_status(t, status).requests_sent == t.requests_sent + 1,
        tally_errors(tally_after_status(t, status)) == tally_errors(t),
{
}

/// A response with a status under 200 or over 599 is counted as sent, in no
/// class.
pub proof fn lemma_status_outside_classes(t: Tally, status: u16, class: int)
    requires
        status < 200 || status > 599,
        2 <= class <= 5,
    ensures
        class_count(tally_after_status(t, status), class) == class_count(t, class),
        tally_after_status(t, status).requests_sent == t.requests_sent + 1,
{
}

/// The body bytes of the responses among `os`, added up.
pub open spec fn body_bytes(os: Seq<Outcome>) -> nat
    decreases os.len(),
{
    if os.len() == 0 {
        0
    } else {
        body_bytes(os.drop_last()) + match os.last() {
            Outcome::Response { status, body_len, latency } => body_len as nat,
            _ => 0nat,
        }
    }
}

/// The bytes received accumulate: after the outcomes `os` they are the bytes
/// before plus the body lengths of all responses among them.
pub proof fn lemma_bytes_accumulate(t: Tally, os: Seq<Outcome>)
    ensures
        tally_after_outcomes(t, os).bytes_received == t.bytes_received + body_bytes(os),
    decreases os.len(),
{
    if os.len() > 0 {
        lemma_bytes_accumulate(t, os.drop_last());
    }
}

} // verus!
