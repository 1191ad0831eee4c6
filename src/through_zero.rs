//! Through-zero frequency: detecting a change of playing direction, which
//! mirrors the phase so that the waveform runs backwards.
use vstd::prelude::*;
use crate::order::Comparison;

verus! {

/// Remembers whether the frequency was negative at the previous step.
#[derive(Clone, Copy, Debug, PartialEq, Eq, Structural)]
pub struct ZeroCrossing {
    pub negative: bool,
}

/// What a step does about the direction.
#[derive(Clone, Copy, Debug, PartialEq, Eq, Structural)]
pub struct Reversal {
    /// The phase and sweep phase are mirrored to the opposite side.
    pub mirror: bool,
    /// The frequency is negative: the skew is mirrored around its centre.
    pub invert_skew: bool,
}

/// A step mirrors the phase when the frequency's sign differs from the one
/// remembered and no sync sweep is running.
pub open spec fn mirrors_on(was_negative: bool, freq_vs_zero: Comparison, sweep_running: bool) -> bool {
    freq_vs_zero.lt() != was_negative && !sweep_running
}

impl ZeroCrossing {
    /// A detector that starts with a non-negative frequency.
    pub fn new() -> (r: ZeroCrossing)
        ensures
            !r.negative,
    {
        ZeroCrossing { negative: false }
    }

    /// Looks at this step's signed frequency (`freq_vs_zero`, against `0`)
    /// and remembers its sign. A sign change mirrors the phase unless a
    /// sync sweep is running; a negative frequency inverts the skew.
    pub fn observe(&mut self, freq_vs_zero: Comparison, sweep_running: bool) -> (r: Reversal)
        ensures
            final(self).negative == freq_vs_zero.lt(),
            r.mirror == mirrors_on(old(self).negative, freq_vs_zero, sweep_running),
            r.invert_skew == freq_vs_zero.lt(),
    {
        let now_negative = freq_vs_zero.below();
        let mirror = now_negative != self.negative && !sweep_running;
        self.negative = now_negative;
        Reversal { mirror, invert_skew: now_negative }
    }
}

/// The detector's memory after a run of steps with the given frequencies
/// (each against `0`), starting from `start`.
pub open spec fn sign_after(start: bool, freqs: Seq<Comparison>) -> bool {
    if freqs.len() == 0 {
        start
    } else {
        freqs.last().lt()
    }
}

/// How many steps of a run mirror the phase; `running[i]` tells whether a
/// sync sweep runs at step `i`.
pub open spec fn mirror_count(start: bool, freqs: Seq<Comparison>, running: Seq<bool>) -> nat
    decreases freqs.len(),
{
    if freqs.len() == 0 {
        0
    } else {
        let before = freqs.drop_last();
        mirror_count(start, before, running.drop_last()) + if mirrors_on(
            sign_after(start, before),
            freqs.last(),
            running[freqs.len() - 1],
        ) {
            1nat
        } else {
            0nat
        }
    }
}

/// How many times consecutive entries of a sequence of signs differ.
pub open spec fn sign_changes(signs: Seq<bool>) -> nat
    decreases signs.len(),
{
    if signs.len() < 2 {
        0
    } else {
        sign_changes(signs.drop_last()) + if signs.last() != signs[signs.len() - 2] {
            1nat
        } else {
            0nat
        }
    }
}

/// The signs of a run: the starting one, then the sign at each step.
pub open spec fn signs_of(start: bool, freqs: Seq<Comparison>) -> Seq<bool> {
    seq![start] + freqs.map_values(|c: Comparison| c.lt())
}

/// With no sync sweep running, a run of steps mirrors the phase exactly
/// once for every change of the frequency's sign.
pub proof fn one_mirror_per_sign_change(start: bool, freqs: Seq<Comparison>, running: Seq<bool>)
    requires
        running.len() == freqs.len(),
        forall|i: int| 0 <= i < running.len() ==> !running[i],
    ensures
        mirror_count(start, freqs, running) == sign_changes(signs_of(start, freqs)),
    decreases freqs.len(),
{
    if freqs.len() > 0 {
        let before = freqs.drop_last();
        let run_before = running.drop_last();
        one_mirror_per_sign_change(start, before, run_before);
        let s = signs_of(start, freqs);
        assert(s.drop_last() =~= signs_of(start, before));
        assert(s.last() == freqs.last().lt());
        assert(s[s.len() - 2] == sign_after(start, before));
        assert(!running[freqs.len() - 1]);
    }
}

} // verus!
