//! Points in time with whole-second resolution, measured from a fixed epoch.

use vstd::prelude::*;

verus! {

/// A point in time, held as a whole number of seconds on one side of the
/// fixed epoch from which batch ordinals are measured.
///
/// Instants strictly before the epoch are representable so that a clock
/// reading the batch timeline cannot name can still be reported and
/// rejected, rather than silently clamped to the epoch.
#[derive(Clone, Copy, Debug, PartialEq, Eq, Structural)]
pub struct Instant {
    /// Whether this instant lies strictly before the epoch.
    pub before_epoch: bool,
    /// The distance to the epoch in whole seconds.
    pub secs: u64,
}

impl Instant {
    /// The signed number of seconds from the epoch to this instant.
    pub open spec fn offset(self) -> int {
        if self.before_epoch {
            -(self.secs as int)
        } else {
            self.secs as int
        }
    }

    /// Canonical representation: the epoch itself is stored on the
    /// non-negative side, never as "zero seconds before the epoch".
    pub open spec fn wf(self) -> bool {
        self.before_epoch ==> self.secs > 0
    }

    /// The epoch: offset zero.
    pub fn epoch() -> (r: Instant)
        ensures
            r.wf(),
            r.offset() == 0,
    {
        Instant { before_epoch: false, secs: 0 }
    }

    /// The instant `secs` whole seconds at or after the epoch.
    pub fn from_secs_since_epoch(secs: u64) -> (r: Instant)
        ensures
            r.wf(),
            r.offset() == secs,
    {
        Instant { before_epoch: false, secs }
    }

    /// The instant `secs` whole seconds strictly before the epoch.
    pub fn preceding_epoch_by(secs: u64) -> (r: Instant)
        requires
            secs > 0,
        ensures
            r.wf(),
            r.offset() == -(secs as int),
    {
        Instant { before_epoch: true, secs }
    }

    /// This instant moved `secs` seconds later.
    pub fn plus_secs(self, secs: u64) -> (r: Instant)
        requires
            self.wf(),
            self.offset() + secs <= u64::MAX,
        ensures
            r.wf(),
            r.offset() == self.offset() + secs,
    {
        if self.before_epoch {
            if self.secs > secs {
                Instant { before_epoch: true, secs: self.secs - secs }
            } else {
                Instant { before_epoch: false, secs: secs - self.secs }
            }
        } else {
            Instant { before_epoch: false, secs: self.secs + secs }
        }
    }
}

} // verus!
