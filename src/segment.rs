//! The waveform's four segments: which one a step is in, what happens when
//! a sweep runs past its end, and where a requested starting phase lies.
use vstd::prelude::*;
use crate::order::Comparison;

verus! {

/// One of the four parts of a cycle, in the order they are played.
#[derive(Clone, Copy, Debug, PartialEq, Eq, Structural)]
pub enum Segment {
    /// The cosine sweeps from `+1` down to `-1` (sweep phase in `[0, 1)`).
    SweepDown,
    /// Held at `-1` until the phase reaches the midpoint.
    FlatLow,
    /// The cosine sweeps from `-1` back up to `+1` (sweep phase in `(1, 2)`).
    SweepUp,
    /// Held at `+1` until the phase reaches the end of the cycle.
    FlatHigh,
}

/// How one step produces its sample.
#[derive(Clone, Copy, Debug, PartialEq, Eq, Structural)]
pub enum Shape {
    /// High pitch: an unshaped cosine of the sweep phase.
    PureSine,
    /// Shaped waveform, in the given segment.
    Shaped(Segment),
}

/// The segment of a shaped cycle, from the sweep phase against `1` and `2`
/// and the phase against the midpoint: sweeping down below `1`; flat low
/// while the sweep phase is exactly `1` and the phase is short of the
/// midpoint; sweeping up below `2`; flat high in every other case.
pub open spec fn segment_at(
    sweep_vs_one: Comparison,
    sweep_vs_two: Comparison,
    phase_vs_mid: Comparison,
) -> Segment {
    if sweep_vs_one.lt() {
        Segment::SweepDown
    } else if sweep_vs_one is Equal && phase_vs_mid.lt() {
        Segment::FlatLow
    } else if sweep_vs_two.lt() {
        Segment::SweepUp
    } else {
        Segment::FlatHigh
    }
}

/// Chooses how a step plays: a pure sine when the frequency is at least the
/// highest one that is shaped (`freq_vs_sweep_limit`), else the segment that
/// the sweep phase and the phase select.
pub fn waveform_shape(
    freq_vs_sweep_limit: Comparison,
    sweep_vs_one: Comparison,
    sweep_vs_two: Comparison,
    phase_vs_mid: Comparison,
) -> (r: Shape)
    ensures
        freq_vs_sweep_limit.ge() ==> r == Shape::PureSine,
        !freq_vs_sweep_limit.ge() ==> r == Shape::Shaped(
            segment_at(sweep_vs_one, sweep_vs_two, phase_vs_mid),
        ),
{
    if freq_vs_sweep_limit.at_least() {
        return Shape::PureSine;
    }
    let segment = if sweep_vs_one.below() {
        Segment::SweepDown
    } else if sweep_vs_one == Comparison::Equal && phase_vs_mid.below() {
        Segment::FlatLow
    } else if sweep_vs_two.below() {
        Segment::SweepUp
    } else {
        Segment::FlatHigh
    };
    Shape::Shaped(segment)
}

/// What follows a sweep step whose sweep phase may have run past the end of
/// its sweep.
#[derive(Clone, Copy, Debug, PartialEq, Eq, Structural)]
pub enum CarryOver {
    /// The sweep phase is still within the sweep.
    Within,
    /// The overshoot fits in the flat part that follows: the sweep phase is
    /// pinned at the boundary and the phase carries the overshoot.
    HoldFlat,
    /// The overshoot is longer than the flat part: the rest spills into the
    /// next sweep.
    Spill,
}

/// Decides the carry-over after a sweep step, from the advanced sweep phase
/// against the sweep's end (`sweep_vs_end`) and the length of the following
/// flat part against the overshoot in phase units (`flat_vs_overshoot`).
pub fn carry_over(sweep_vs_end: Comparison, flat_vs_overshoot: Comparison) -> (r: CarryOver)
    ensures
        (r is Within) <==> !sweep_vs_end.gt(),
        (r is HoldFlat) <==> sweep_vs_end.gt() && flat_vs_overshoot.ge(),
        (r is Spill) <==> sweep_vs_end.gt() && !flat_vs_overshoot.ge(),
{
    if !sweep_vs_end.above() {
        CarryOver::Within
    } else if flat_vs_overshoot.at_least() {
        CarryOver::HoldFlat
    } else {
        CarryOver::Spill
    }
}

/// Where a requested starting phase is read from.
#[derive(Clone, Copy, Debug, PartialEq, Eq, Structural)]
pub enum InitSource {
    /// A negative request: the rising zero crossing, symbolic phase `1.25`.
    RisingZero,
    /// A request above `2`: taken modulo `2`.
    Wrapped,
    /// The request itself.
    AsGiven,
}

/// Decides how a requested starting phase is read, from the request against
/// `0` and against `2`.
pub fn init_source(request_vs_zero: Comparison, request_vs_two: Comparison) -> (r: InitSource)
    ensures
        (r is RisingZero) <==> request_vs_zero.lt(),
        (r is Wrapped) <==> !request_vs_zero.lt() && request_vs_two.gt(),
        (r is AsGiven) <==> !request_vs_zero.lt() && !request_vs_two.gt(),
{
    if request_vs_zero.below() {
        InitSource::RisingZero
    } else if request_vs_two.above() {
        InitSource::Wrapped
    } else {
        InitSource::AsGiven
    }
}

/// The segment that a symbolic starting phase in `[0, 2]` names, from the
/// symbolic phase against `1/2`, `1` and `3/2`: `[0, 1/2)` sweeps down,
/// `[1/2, 1)` is flat low, `[1, 3/2)` sweeps up, and the rest is flat high.
pub open spec fn init_segment_at(
    vs_half: Comparison,
    vs_one: Comparison,
    vs_three_halves: Comparison,
) -> Segment {
    if vs_one.lt() {
        if vs_half.lt() {
            Segment::SweepDown
        } else {
            Segment::FlatLow
        }
    } else if vs_three_halves.lt() {
        Segment::SweepUp
    } else {
        Segment::FlatHigh
    }
}

/// Finds the segment that a symbolic starting phase names.
pub fn init_segment(vs_half: Comparison, vs_one: Comparison, vs_three_halves: Comparison) -> (r:
    Segment)
    ensures
        r == init_segment_at(vs_half, vs_one, vs_three_halves),
{
    if vs_one.below() {
        if vs_half.below() {
            Segment::SweepDown
        } else {
            Segment::FlatLow
        }
    } else if vs_three_halves.below() {
        Segment::SweepUp
    } else {
        Segment::FlatHigh
    }
}

} // verus!
