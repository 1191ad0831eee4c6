//! Hard sync: the one-shot trigger latch and the decision to start the sync
//! sweep that forces an early, smooth restart of the cycle.
use vstd::prelude::*;
use crate::order::Comparison;

verus! {

/// A one-shot latch for the sync input: armed by a trigger at or above the
/// threshold, and cleared when the next step takes it.
#[derive(Clone, Copy, Debug, PartialEq, Eq, Structural)]
pub struct SyncLatch {
    pub armed: bool,
}

impl SyncLatch {
    /// A latch that is not armed.
    pub fn new() -> (r: SyncLatch)
        ensures
            !r.armed,
    {
        SyncLatch { armed: false }
    }

    /// Records the sync input, from how it compares with the trigger
    /// threshold: armed exactly when it is at least the threshold.
    pub fn set(&mut self, input_vs_threshold: Comparison)
        ensures
            final(self).armed == input_vs_threshold.ge(),
    {
        self.armed = input_vs_threshold.at_least();
    }

    /// Takes the latch's state and clears it.
    pub fn take(&mut self) -> (r: bool)
        ensures
            r == old(self).armed,
            !final(self).armed,
    {
        let was = self.armed;
        self.armed = false;
        was
    }
}

/// What a sync request does.
#[derive(Clone, Copy, Debug, PartialEq, Eq, Structural)]
pub enum SyncStart {
    /// A sync sweep is already running: the request is ignored.
    Busy,
    /// The waveform is on its final flat part: the cycle is simply completed
    /// (the phase is set to its end).
    FinishCycle,
    /// The frequency is above the highest one that can be synced: ignored.
    TooHigh,
    /// A sync sweep begins.
    Begin,
}

/// The response to a sync request, from whether a sync sweep is running,
/// the sweep phase against `2` and the frequency against the highest one
/// that can be synced.
pub open spec fn sync_response(
    sweep_running: bool,
    sweep_vs_two: Comparison,
    freq_vs_sync_limit: Comparison,
) -> SyncStart {
    if sweep_running {
        SyncStart::Busy
    } else if sweep_vs_two is Equal {
        SyncStart::FinishCycle
    } else if freq_vs_sync_limit.gt() {
        SyncStart::TooHigh
    } else {
        SyncStart::Begin
    }
}

/// Decides what a sync request does. A sweep begins exactly when none is
/// running, the waveform is not on its final flat part, and the frequency
/// is not above the sync limit.
pub fn hardsync_start(
    sweep_running: bool,
    sweep_vs_two: Comparison,
    freq_vs_sync_limit: Comparison,
) -> (r: SyncStart)
    ensures
        r == sync_response(sweep_running, sweep_vs_two, freq_vs_sync_limit),
        (r is Begin) <==> (!sweep_running && !(sweep_vs_two is Equal)
            && !freq_vs_sync_limit.gt()),
{
    if sweep_running {
        SyncStart::Busy
    } else if sweep_vs_two == Comparison::Equal {
        SyncStart::FinishCycle
    } else if freq_vs_sync_limit.above() {
        SyncStart::TooHigh
    } else {
        SyncStart::Begin
    }
}

} // verus!
