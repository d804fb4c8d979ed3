//! A point in time, held as a signed offset from the Unix epoch.

use vstd::prelude::*;

verus! {

/// Nanoseconds in one second.
pub const NANOS_PER_SEC: u32 = 1_000_000_000;

/// A point in time: `secs` whole seconds after the Unix epoch (before it when
/// negative), plus `nanos` nanoseconds.
#[derive(Clone, Copy, Debug, PartialEq, Eq, Structural)]
pub struct Timestamp {
    pub secs: i64,
    pub nanos: u32,
}

impl Timestamp {
    /// The nanosecond part is below one second.
    pub open spec fn wf(self) -> bool {
        self.nanos < NANOS_PER_SEC
    }

    /// Nanoseconds from the epoch to this point, negative before it.
    pub open spec fn offset(self) -> int {
        self.secs * NANOS_PER_SEC + self.nanos
    }

    /// The point `secs` seconds and `nanos` nanoseconds after the epoch, if
    /// its whole seconds fit in an `i64`. `nanos` may exceed one second.
    pub open spec fn spec_after_epoch(secs: u64, nanos: u32) -> Option<Timestamp> {
        let whole = secs + (nanos / NANOS_PER_SEC) as int;
        if whole <= i64::MAX {
            Some(Timestamp { secs: whole as i64, nanos: (nanos % NANOS_PER_SEC) as u32 })
        } else {
            None
        }
    }

    /// The point `secs` seconds and `nanos` nanoseconds after the epoch, with
    /// overflow checked: `None` where the whole seconds do not fit.
    pub fn after_epoch(secs: u64, nanos: u32) -> (r: Option<Timestamp>)
        ensures
            r == Timestamp::spec_after_epoch(secs, nanos),
            r matches Some(t) ==> t.wf() && t.offset() == secs * NANOS_PER_SEC + nanos,
            r is None <==> secs + (nanos / NANOS_PER_SEC) as int > i64::MAX,
    {
        let carry: u32 = nanos / NANOS_PER_SEC;
        let rest: u32 = nanos % NANOS_PER_SEC;
        if secs > (i64::MAX as u64) - (carry as u64) {
            None
        } else {
            Some(Timestamp { secs: (secs + carry as u64) as i64, nanos: rest })
        }
    }

    /// The point `secs` seconds and `nanos` nanoseconds before the epoch,
    /// with overflow checked: `None` where its whole seconds, rounded down,
    /// do not fit in an `i64`. `nanos` may exceed one second.
    pub fn before_epoch(secs: u64, nanos: u32) -> (r: Option<Timestamp>)
        ensures
            r matches Some(t) ==> t.wf() && t.offset() == -(secs * NANOS_PER_SEC + nanos),
            r is None <==> secs * NANOS_PER_SEC + nanos > 0x8000_0000_0000_0000 * NANOS_PER_SEC,
    {
        let carry: u32 = nanos / NANOS_PER_SEC;
        let rest: u32 = nanos % NANOS_PER_SEC;
        // The offset is -(whole * 10^9 + rest); with a nonzero `rest` the whole
        // seconds round down by one more.
        let borrow: u64 = if rest == 0 { 0 } else { 1 };
        let limit: u64 = 0x8000_0000_0000_0000u64;
        if secs > limit || (carry as u64) + borrow > limit - secs {
            None
        } else {
            let whole: u64 = secs + carry as u64 + borrow;
            let s: i64 = if whole == limit { i64::MIN } else { -(whole as i64) };
            let n: u32 = if rest == 0 { 0 } else { NANOS_PER_SEC - rest };
            Some(Timestamp { secs: s, nanos: n })
        }
    }
}

} // verus!
