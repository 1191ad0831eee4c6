//! The end of a cycle: when a step completes one, and how the next one starts.
use vstd::prelude::*;
use crate::order::Comparison;

verus! {

/// How a step ends.
#[derive(Clone, Copy, Debug, PartialEq, Eq, Structural)]
pub enum CycleEnd {
    /// The cycle goes on.
    Continue,
    /// A sync sweep completed the cycle: phase, sweep phase and the sync
    /// sweep all restart from zero.
    SyncRestart,
    /// The cycle wrapped on its own: the phase drops by `2`, and the sweep
    /// phase is reseeded for the first sweep, shaped or as a pure sine.
    Wrap { shaped: bool },
}

impl CycleEnd {
    /// Whether a cycle was completed, which is what the sync output reports.
    pub open spec fn completes(self) -> bool {
        !(self is Continue)
    }

    /// The sync output's pulse: set exactly on a step that completes a cycle.
    pub fn pulse(self) -> (r: bool)
        ensures
            r == self.completes(),
    {
        match self {
            CycleEnd::Continue => false,
            _ => true,
        }
    }
}

/// Decides how a step ends, from the sweep phase and the phase against `2`,
/// whether a sync sweep is running, and the frequency against the highest
/// one that is shaped. A cycle is completed exactly when both the sweep
/// phase and the phase have reached `2`.
pub fn cycle_end(
    sweep_vs_two: Comparison,
    phase_vs_two: Comparison,
    sweep_running: bool,
    freq_vs_sweep_limit: Comparison,
) -> (r: CycleEnd)
    ensures
        r.completes() <==> (sweep_vs_two.ge() && phase_vs_two.ge()),
        r.completes() && sweep_running ==> r == CycleEnd::SyncRestart,
        r.completes() && !sweep_running ==> r == (CycleEnd::Wrap {
            shaped: freq_vs_sweep_limit.lt(),
        }),
{
    if !(sweep_vs_two.at_least() && phase_vs_two.at_least()) {
        CycleEnd::Continue
    } else if sweep_running {
        CycleEnd::SyncRestart
    } else {
        CycleEnd::Wrap { shaped: freq_vs_sweep_limit.below() }
    }
}

} // verus!
