//! The single-flight latch between the schedule and the reconciler.
//!
//! The schedule fires at its own pace. A firing that finds a run under way is
//! dropped, not queued, so runs never overlap and no backlog builds up. How a
//! run ends does not matter to the latch: once it is over, the next firing is
//! let through again.

use vstd::prelude::*;

verus! {

/// The latch: whether a run is under way, and how many firings were dropped
/// since the latch was made (the count stops at the largest value).
#[derive(Clone, Copy, Debug, PartialEq, Eq, Structural)]
pub struct Trigger {
    pub running: bool,
    pub dropped: u64,
}

/// The latch after a firing, and whether the firing starts a run.
pub open spec fn spec_fire(latch: Trigger) -> (Trigger, bool) {
    if latch.running {
        (
            Trigger {
                running: true,
                dropped: if latch.dropped < u64::MAX {
                    (latch.dropped + 1) as u64
                } else {
                    latch.dropped
                },
            },
            false,
        )
    } else {
        (Trigger { running: true, dropped: latch.dropped }, true)
    }
}

/// The latch after the run under way, if there is one, has ended.
pub open spec fn spec_finish(latch: Trigger) -> Trigger {
    Trigger { running: false, dropped: latch.dropped }
}

impl Trigger {
    /// A latch with no run under way.
    pub fn new() -> (latch: Trigger)
        ensures
            latch == (Trigger { running: false, dropped: 0 }),
    {
        Trigger { running: false, dropped: 0 }
    }

    /// The schedule fires. Returns whether a run is to start now; if one is
    /// under way the firing is dropped and counted.
    pub fn fire(&mut self) -> (start: bool)
        ensures
            (*final(self), start) == spec_fire(*old(self)),
    {
        if self.running {
            if self.dropped < u64::MAX {
                self.dropped = self.dropped + 1;
            }
            false
        } else {
            self.running = true;
            true
        }
    }

    /// The run has ended, well or badly.
    pub fn finish(&mut self)
        ensures
            *final(self) == spec_finish(*old(self)),
    {
        self.running = false;
    }
}

/// Runs never overlap: of two firings with no end of a run between them, the
/// second starts nothing, whatever the latch was like before.
pub proof fn law_single_flight(latch: Trigger)
    ensures
        !spec_fire(spec_fire(latch).0).1,
{
}

/// A run that has ended never blocks the schedule: the firing after it
/// starts a run.
pub proof fn law_finished_run_unblocks(latch: Trigger)
    ensures
        spec_fire(spec_finish(latch)).1,
{
}

} // verus!
