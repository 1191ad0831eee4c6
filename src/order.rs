//! Outcomes of comparing two sample values, and the clamp decision built on them.
use vstd::prelude::*;

verus! {

/// How a value compares with another one. `Unordered` is the outcome when
/// either side is not a number.
#[derive(Clone, Copy, Debug, PartialEq, Eq, Structural)]
pub enum Comparison {
    Less,
    Equal,
    Greater,
    Unordered,
}

impl Comparison {
    /// The value is at least the other one (`a >= b`).
    pub open spec fn ge(self) -> bool {
        self is Equal || self is Greater
    }

    /// The value is at most the other one (`a <= b`).
    pub open spec fn le(self) -> bool {
        self is Equal || self is Less
    }

    /// The value is strictly below the other one (`a < b`).
    pub open spec fn lt(self) -> bool {
        self is Less
    }

    /// The value is strictly above the other one (`a > b`).
    pub open spec fn gt(self) -> bool {
        self is Greater
    }

    /// `a >= b`, as a boolean.
    pub fn at_least(self) -> (r: bool)
        ensures
            r == self.ge(),
    {
        match self {
            Comparison::Equal | Comparison::Greater => true,
            _ => false,
        }
    }

    /// `a > b`, as a boolean.
    pub fn above(self) -> (r: bool)
        ensures
            r == self.gt(),
    {
        match self {
            Comparison::Greater => true,
            _ => false,
        }
    }

    /// `a < b`, as a boolean.
    pub fn below(self) -> (r: bool)
        ensures
            r == self.lt(),
    {
        match self {
            Comparison::Less => true,
            _ => false,
        }
    }
}

/// How two totally ordered values compare; a model of two finite samples.
pub open spec fn compare(a: int, b: int) -> Comparison {
    if a < b {
        Comparison::Less
    } else if a == b {
        Comparison::Equal
    } else {
        Comparison::Greater
    }
}

/// Which of its three arguments a clamp returns.
#[derive(Clone, Copy, Debug, PartialEq, Eq, Structural)]
pub enum ClampPick {
    /// The value itself, which lies within the bounds.
    Value,
    /// The lower bound.
    Low,
    /// The upper bound.
    High,
}

/// The clamp of a value `x` into `[lo, hi]`, from how `x` compares with `lo`
/// and with `hi`: `x` when `lo <= x <= hi`, `lo` when `x < lo`, and `hi` in
/// every other case, a value that is not a number included.
pub open spec fn clamp_choice(vs_low: Comparison, vs_high: Comparison) -> ClampPick {
    if vs_low.ge() && vs_high.le() {
        ClampPick::Value
    } else if vs_low.lt() {
        ClampPick::Low
    } else {
        ClampPick::High
    }
}

/// Decides a clamp of `x` into `[lo, hi]` from `vs_low` (`x` against `lo`)
/// and `vs_high` (`x` against `hi`).
pub fn clamp_pick(vs_low: Comparison, vs_high: Comparison) -> (r: ClampPick)
    ensures
        r == clamp_choice(vs_low, vs_high),
{
    let within_high = match vs_high {
        Comparison::Less | Comparison::Equal => true,
        _ => false,
    };
    if vs_low.at_least() && within_high {
        ClampPick::Value
    } else if vs_low.below() {
        ClampPick::Low
    } else {
        ClampPick::High
    }
}

/// On ordered values the clamp returns the value when `lo <= x <= hi`, the
/// lower bound when `x < lo`, and the upper bound otherwise.
pub proof fn clamp_pick_on_ordered_values(x: int, lo: int, hi: int)
    ensures
        clamp_choice(compare(x, lo), compare(x, hi)) == (if lo <= x && x <= hi {
            ClampPick::Value
        } else if x < lo {
            ClampPick::Low
        } else {
            ClampPick::High
        }),
{
}

/// A value that is not a number compares unordered with the lower bound,
/// and is clamped to the upper bound whatever it gives against the upper one.
pub proof fn clamp_pick_unordered_is_high(vs_high: Comparison)
    ensures
        clamp_choice(Comparison::Unordered, vs_high) == ClampPick::High,
{
}

} // verus!
