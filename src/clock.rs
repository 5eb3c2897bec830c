//! Instants in UTC and the expiration predicate.

use vstd::prelude::*;

verus! {

/// Nanoseconds in one second.
pub const NANOS_PER_SEC: u32 = 1_000_000_000;

/// An instant in UTC: whole seconds since the Unix epoch and the
/// nanoseconds within that second.
#[derive(Clone, Copy, Debug, PartialEq, Eq, Structural)]
pub struct Timestamp {
    pub secs: i64,
    pub nanos: u32,
}

impl Timestamp {
    /// The sub-second part is below one second.
    pub open spec fn wf(self) -> bool {
        self.nanos < NANOS_PER_SEC
    }

    /// The instant as a count of nanoseconds since the epoch.
    pub open spec fn instant(self) -> int {
        self.secs * 1_000_000_000 + self.nanos
    }

    /// Builds an instant; `None` where `nanos` is a second or more.
    pub fn new(secs: i64, nanos: u32) -> (r: Option<Timestamp>)
        ensures
            nanos < NANOS_PER_SEC <==> r is Some,
            r matches Some(t) ==> t.secs == secs && t.nanos == nanos,
    {
        if nanos < NANOS_PER_SEC {
            Some(Timestamp { secs, nanos })
        } else {
            None
        }
    }
}

/// Whole seconds from `from` to `to`, truncated toward zero (negative when
/// `to` lies before `from` by a second or more).
pub open spec fn elapsed_secs(from: Timestamp, to: Timestamp) -> int {
    let d = to.instant() - from.instant();
    if d >= 0 {
        d / 1_000_000_000
    } else {
        -((-d) / 1_000_000_000)
    }
}

/// A paste created at `created` has outlived a threshold of `threshold`
/// seconds at `now`.
pub open spec fn outlived(created: Timestamp, now: Timestamp, threshold: u64) -> bool {
    elapsed_secs(created, now) > threshold
}

/// The clock reads `now` before `created`: a timestamp from the future.
pub open spec fn skewed(created: Timestamp, now: Timestamp) -> bool {
    elapsed_secs(created, now) < 0
}

/// Whole seconds from `from` to `to`; `None` where `to` lies before `from`
/// by a second or more, which is a clock fault and not a duration.
pub fn elapsed_seconds(from: Timestamp, to: Timestamp) -> (r: Option<u64>)
    requires
        from.wf(),
        to.wf(),
    ensures
        r is None <==> skewed(from, to),
        r matches Some(e) ==> e as int == elapsed_secs(from, to),
{
    let d: i128 = (to.secs as i128 - from.secs as i128) * 1_000_000_000i128 + (to.nanos as i128
        - from.nanos as i128);
    assert(d as int == to.instant() - from.instant()) by (nonlinear_arith)
        requires
            d as int == (to.secs as int - from.secs as int) * 1_000_000_000 + (to.nanos as int
                - from.nanos as int),
    ;
    if d >= 0 {
        let e: i128 = d / 1_000_000_000i128;
        assert(e <= u64::MAX) by (nonlinear_arith)
            requires
                e == d / 1_000_000_000i128,
                0 <= d < 18446744073709551616 * 1_000_000_000,
        ;
        Some(e as u64)
    } else if d > -1_000_000_000i128 {
        Some(0)
    } else {
        None
    }
}

/// Relies on chrono's `Utc::now`: the system clock in UTC, read after the
/// epoch (chrono panics otherwise), with nanoseconds below one second.
#[verifier::external_body]
pub(crate) fn now() -> (r: Timestamp)
    ensures
        r.wf(),
        r.secs >= 0,
{
    let t = chrono::Utc::now();
    Timestamp { secs: t.timestamp(), nanos: t.timestamp_subsec_nanos() }
}

} // verus!
