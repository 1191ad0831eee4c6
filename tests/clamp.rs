use squinewave::order::{clamp_pick, ClampPick, Comparison};

fn cmp(a: f64, b: f64) -> Comparison {
    match a.partial_cmp(&b) {
        Some(std::cmp::Ordering::Less) => Comparison::Less,
        Some(std::cmp::Ordering::Equal) => Comparison::Equal,
        Some(std::cmp::Ordering::Greater) => Comparison::Greater,
        None => Comparison::Unordered,
    }
}

fn clamp(x: f64, lo: f64, hi: f64) -> f64 {
    match clamp_pick(cmp(x, lo), cmp(x, hi)) {
        ClampPick::Value => x,
        ClampPick::Low => lo,
        ClampPick::High => hi,
    }
}

#[test]
fn clamp_inside_returns_value() {
    assert_eq!(clamp(0.25, 0.0, 1.0), 0.25);
    assert_eq!(clamp(0.0, 0.0, 1.0), 0.0);
    assert_eq!(clamp(1.0, 0.0, 1.0), 1.0);
}

#[test]
fn clamp_below_returns_low() {
    assert_eq!(clamp(-3.0, -1.0, 1.0), -1.0);
    assert_eq!(clamp_pick(Comparison::Less, Comparison::Less), ClampPick::Low);
}

#[test]
fn clamp_above_returns_high() {
    assert_eq!(clamp(12000.0, 0.0, 10000.0), 10000.0);
    assert_eq!(clamp_pick(Comparison::Greater, Comparison::Greater), ClampPick::High);
}

#[test]
fn clamp_nan_returns_high() {
    assert_eq!(clamp(f64::NAN, 0.0, 1.0), 1.0);
    assert_eq!(clamp(f64::NAN, -1.0, 1.0), 1.0);
    assert_eq!(clamp_pick(Comparison::Unordered, Comparison::Unordered), ClampPick::High);
}

#[test]
fn clamp_infinities() {
    assert_eq!(clamp(f64::INFINITY, 0.0, 10000.0), 10000.0);
    assert_eq!(clamp(f64::NEG_INFINITY, 0.0, 10000.0), 0.0);
}

#[test]
fn clamp_with_crossed_bounds() {
    // Bounds in the wrong order: below the lower bound gives it, else the upper.
    assert_eq!(clamp(0.5, 1.2, 0.8), 1.2);
    assert_eq!(clamp(1.5, 1.2, 0.8), 0.8);
}

#[test]
fn comparison_predicates() {
    assert!(Comparison::Equal.at_least());
    assert!(Comparison::Greater.at_least());
    assert!(!Comparison::Less.at_least());
    assert!(!Comparison::Unordered.at_least());
    assert!(Comparison::Greater.above());
    assert!(!Comparison::Equal.above());
    assert!(!Comparison::Unordered.above());
    assert!(Comparison::Less.below());
    assert!(!Comparison::Equal.below());
    assert!(!Comparison::Unordered.below());
}
