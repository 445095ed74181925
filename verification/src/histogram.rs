//! The latency histogram of the `hdrhistogram` crate, as the library uses it.
//!
//! A histogram keeps a count per bucket of equivalent values; it is read here
//! as the multiset of the buckets' lowest values, each as often as its count
//! (`hist_values`). Which bucket a value falls in is named by
//! `hdr_lowest_equivalent`.

use hdrhistogram::{AdditionError, CreationError, Histogram, RecordError};
use vstd::multiset::Multiset;
use vstd::prelude::*;

verus! {

/// An `hdrhistogram::Histogram<u64>` of latencies. Its field is public so
/// that the report can read the crate's floating-point statistics (mean,
/// deviation, quantiles), which no verified code can take; it is only read
/// there.
#[derive(Debug)]
#[verifier::external_body]
pub struct LatencyHistogram {
    pub hdr: Histogram<u64>,
}

#[verifier::external_type_specification]
#[verifier::external_body]
pub struct ExCreationError(CreationError);

#[verifier::external_type_specification]
#[verifier::external_body]
pub struct ExRecordError(RecordError);

#[verifier::external_type_specification]
#[verifier::external_body]
pub struct ExAdditionError(AdditionError);

/// The counts of `h`: the lowest value of each bucket, as often as the
/// bucket's count.
pub uninterp spec fn hist_values(h: LatencyHistogram) -> Multiset<u64>;

/// What `Histogram::lowest_equivalent(v)` returns on a histogram made with the
/// lowest discernible value `low` and `sigfig` significant figures: the lowest
/// value of the bucket that `v` falls in. The bucket layout that it reads
/// depends on these two alone.
pub uninterp spec fn hdr_lowest_equivalent(low: u64, sigfig: u8, v: u64) -> u64;

/// The bucket of `h` that the value `v` is counted in, by its lowest value.
pub open spec fn hist_bucket(h: LatencyHistogram, v: u64) -> u64 {
    hdr_lowest_equivalent(hist_config(h).0, hist_config(h).2, v)
}

/// What `h` was made with: its lowest discernible value, its highest trackable
/// value, its number of significant figures, and whether it grows to take
/// larger values (`low()`, `high()`, `sigfig()`, `is_auto_resize()`).
pub uninterp spec fn hist_config(h: LatencyHistogram) -> (u64, u64, u8, bool);

impl LatencyHistogram {
    /// `Histogram::new_with_bounds(low, high, sigfig)`. The crate refuses a
    /// `low` under 1, a `high` under `2 * low` and a `sigfig` over 5; with
    /// `low == 1` it refuses nothing else. A new histogram holds no values and
    /// does not grow. What else could make it fail for a `low` above 1 is not
    /// stated.
    #[verifier::external_body]
    pub(crate) fn new_with_bounds(low: u64, high: u64, sigfig: u8) -> (r: Result<
        LatencyHistogram,
        CreationError,
    >)
        ensures
            r is Ok ==> 1 <= low && 2 * low <= high && sigfig <= 5,
            (low == 1 && 2 <= high && sigfig <= 5) ==> r is Ok,
            r matches Ok(h) ==> hist_values(h) =~= Multiset::empty() && hist_config(h) == (
                low,
                high,
                sigfig,
                false,
            ),
    {
        match Histogram::new_with_bounds(low, high, sigfig) {
            Ok(hdr) => Ok(LatencyHistogram { hdr }),
            Err(e) => Err(e),
        }
    }

    /// `Histogram::record(v)`. A value up to the highest trackable value is
    /// always taken; a larger one is refused unless the histogram grows. A
    /// taken value adds one to the count of its bucket, which saturates at
    /// `u64::MAX`. A refusal changes nothing, and a histogram that does not
    /// grow keeps its configuration.
    #[verifier::external_body]
    pub(crate) fn record(&mut self, v: u64) -> (r: Result<(), RecordError>)
        ensures
            v <= hist_config(*old(self)).1 ==> r is Ok,
            ({
                let c = hist_config(*old(self));
                let b = hdr_lowest_equivalent(c.0, c.2, v);
                let before = hist_values(*old(self));
                let after = hist_values(*final(self));
                &&& r is Ok && before.count(b) < u64::MAX ==> after =~= before.insert(b)
                &&& r is Ok && before.count(b) >= u64::MAX ==> after =~= before
            }),
            r is Err ==> hist_values(*final(self)) =~= hist_values(*old(self)),
            !hist_config(*old(self)).3 ==> hist_config(*final(self)) == hist_config(*old(self)),
    {
        self.hdr.record(v)
    }

    /// `Histogram::add(source)`. Between two histograms made with the same
    /// bounds and precision that do not grow, the buckets match: adding
    /// succeeds and adds the counts bucket by bucket, each saturating at
    /// `u64::MAX`. Where the layouts differ, what the counts become is not
    /// stated. A failure changes nothing.
    #[verifier::external_body]
    pub(crate) fn add(&mut self, source: &LatencyHistogram) -> (r: Result<(), AdditionError>)
        ensures
            ({
                let c = hist_config(*old(self));
                let s = hist_config(*source);
                let before = hist_values(*old(self));
                let other = hist_values(*source);
                (!c.3 && !s.3 && c.0 == s.0 && c.1 == s.1 && c.2 == s.2) ==> {
                    &&& r is Ok
                    &&& (forall|b: u64| before.count(b) + other.count(b) <= u64::MAX)
                        ==> hist_values(*final(self)) =~= before.add(other)
                }
            }),
            r is Err ==> hist_values(*final(self)) =~= hist_values(*old(self)),
            !hist_config(*old(self)).3 ==> hist_config(*final(self)) == hist_config(*old(self)),
    {
        self.hdr.add(&source.hdr)
    }

    /// `Histogram::len()`: the number of values recorded, which the crate
    /// counts with saturating additions.
    #[verifier::external_body]
    pub(crate) fn len(&self) -> (r: u64)
        ensures
            r == if hist_values(*self).len() <= u64::MAX {
                hist_values(*self).len()
            } else {
                u64::MAX as nat
            },
    {
        self.hdr.len()
    }
}

} // verus!
