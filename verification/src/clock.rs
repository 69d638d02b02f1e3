//! Clock readings and the age of queued work.

use time::{get_time, Duration, Timespec};
use vstd::prelude::*;

verus! {

/// Seconds after which a queued request is stale: it is then neither forwarded nor retried.
pub const STALE_AFTER_SECS: i64 = 2;

/// The largest difference in whole seconds between two readings that can be measured.
pub const MAX_SPAN_SECS: i64 = 9_223_372_036_854_775;

/// A reading of the wall clock: whole seconds, and the nanoseconds past them.
#[derive(Clone, Copy, Debug, PartialEq, Eq, Structural)]
pub struct Stamp {
    pub sec: i64,
    pub nsec: i32,
}

impl Stamp {
    /// The nanoseconds are less than one second.
    pub open spec fn valid(self) -> bool {
        0 <= self.nsec < 1_000_000_000
    }

    /// The reading in nanoseconds.
    pub open spec fn nanos(self) -> int {
        self.sec * 1_000_000_000 + self.nsec
    }

    /// A reading from its two parts, where the nanoseconds are less than one second.
    pub fn new(sec: i64, nsec: i32) -> (r: Option<Stamp>)
        ensures
            r == if 0 <= nsec < 1_000_000_000 {
                Some(Stamp { sec, nsec })
            } else {
                None
            },
    {
        if 0 <= nsec && nsec < 1_000_000_000 {
            Some(Stamp { sec, nsec })
        } else {
            None
        }
    }
}

/// The nanoseconds that passed from `then` to `now`; negative where the clock went back.
pub open spec fn age_nanos(now: Stamp, then: Stamp) -> int {
    now.nanos() - then.nanos()
}

/// The two readings are close enough for their distance to be measured.
pub open spec fn measurable(now: Stamp, then: Stamp) -> bool {
    &&& now.valid()
    &&& then.valid()
    &&& -MAX_SPAN_SECS <= now.sec - then.sec <= MAX_SPAN_SECS
}

/// A request enqueued at `enqueued` is stale at `now`.
pub open spec fn stale(now: Stamp, enqueued: Stamp) -> bool {
    age_nanos(now, enqueued) >= STALE_AFTER_SECS * 1_000_000_000
}

/// Calls `time`'s `Timespec::sub`, `Duration::seconds` and the `>=` of `Duration`.
///
/// Trusted: the difference of the two readings, taken as `time` takes it, is at least
/// `secs` seconds exactly when the readings lie at least that many nanoseconds apart.
/// The `requires` keeps out what `Timespec::new` and `Duration::seconds` panic on.
#[verifier::external_body]
fn elapsed_at_least(now: Stamp, then: Stamp, secs: i64) -> (r: bool)
    requires
        measurable(now, then),
        -MAX_SPAN_SECS <= secs <= MAX_SPAN_SECS,
    ensures
        r == (age_nanos(now, then) >= secs * 1_000_000_000),
{
    Timespec::new(now.sec, now.nsec) - Timespec::new(then.sec, then.nsec) >= Duration::seconds(secs)
}

/// Calls `time::get_time`. Trusted: the reading has less than a second of nanoseconds.
/// Which reading it is depends on the moment of the call, and nothing is said of it.
#[verifier::external_body]
pub(crate) fn read_clock() -> (r: Stamp)
    ensures
        r.valid(),
{
    let t = get_time();
    Stamp { sec: t.sec, nsec: t.nsec }
}

/// Whether a request enqueued at `enqueued` is stale at `now`.
pub fn is_stale(now: Stamp, enqueued: Stamp) -> (r: bool)
    requires
        measurable(now, enqueued),
    ensures
        r == stale(now, enqueued),
{
    elapsed_at_least(now, enqueued, STALE_AFTER_SECS)
}

/// Whether two readings are close enough for `is_stale`.
pub fn can_measure(now: Stamp, then: Stamp) -> (r: bool)
    ensures
        r == measurable(now, then),
{
    if !(0 <= now.nsec && now.nsec < 1_000_000_000) {
        return false;
    }
    if !(0 <= then.nsec && then.nsec < 1_000_000_000) {
        return false;
    }
    match now.sec.checked_sub(then.sec) {
        Some(d) => -MAX_SPAN_SECS <= d && d <= MAX_SPAN_SECS,
        None => false,
    }
}

} // verus!
