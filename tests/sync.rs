use squinewave::cycle::{cycle_end, CycleEnd};
use squinewave::hardsync::{hardsync_start, SyncLatch, SyncStart};
use squinewave::order::Comparison;

fn cmp(a: f64, b: f64) -> Comparison {
    match a.partial_cmp(&b) {
        Some(std::cmp::Ordering::Less) => Comparison::Less,
        Some(std::cmp::Ordering::Equal) => Comparison::Equal,
        Some(std::cmp::Ordering::Greater) => Comparison::Greater,
        None => Comparison::Unordered,
    }
}

const SYNC_TRIG: f64 = 0.9997;

#[test]
fn latch_arms_at_threshold_and_clears_on_take() {
    let mut latch = SyncLatch::new();
    assert!(!latch.armed);
    latch.set(cmp(0.5, SYNC_TRIG));
    assert!(!latch.armed);
    latch.set(cmp(0.9997, SYNC_TRIG));
    assert!(latch.armed);
    assert!(latch.take());
    assert!(!latch.armed);
    assert!(!latch.take());
    latch.set(cmp(1.0, SYNC_TRIG));
    assert!(latch.armed);
    latch.set(cmp(f64::NAN, SYNC_TRIG));
    assert!(!latch.armed);
}

#[test]
fn sync_request_outcomes() {
    assert_eq!(hardsync_start(true, cmp(0.5, 2.0), cmp(100.0, 400.0)), SyncStart::Busy);
    assert_eq!(hardsync_start(false, cmp(2.0, 2.0), cmp(100.0, 400.0)), SyncStart::FinishCycle);
    assert_eq!(hardsync_start(false, cmp(0.5, 2.0), cmp(500.0, 400.0)), SyncStart::TooHigh);
    assert_eq!(hardsync_start(false, cmp(0.5, 2.0), cmp(400.0, 400.0)), SyncStart::Begin);
    assert_eq!(hardsync_start(false, cmp(1.7, 2.0), cmp(220.0, 400.0)), SyncStart::Begin);
}

#[test]
fn pulse_only_when_both_phases_reach_end() {
    let none = cycle_end(cmp(2.0, 2.0), cmp(1.99, 2.0), false, cmp(220.0, 714.0));
    assert_eq!(none, CycleEnd::Continue);
    assert!(!none.pulse());
    let none = cycle_end(cmp(1.9, 2.0), cmp(2.1, 2.0), false, cmp(220.0, 714.0));
    assert!(!none.pulse());
    let wrap = cycle_end(cmp(2.0, 2.0), cmp(2.0, 2.0), false, cmp(220.0, 714.0));
    assert_eq!(wrap, CycleEnd::Wrap { shaped: true });
    assert!(wrap.pulse());
}

#[test]
fn wrap_at_high_frequency_is_unshaped() {
    let wrap = cycle_end(cmp(2.03, 2.0), cmp(2.03, 2.0), false, cmp(900.0, 714.0));
    assert_eq!(wrap, CycleEnd::Wrap { shaped: false });
    assert!(wrap.pulse());
}

#[test]
fn wrap_during_sync_sweep_restarts() {
    let end = cycle_end(cmp(2.0, 2.0), cmp(2.2, 2.0), true, cmp(220.0, 714.0));
    assert_eq!(end, CycleEnd::SyncRestart);
    assert!(end.pulse());
}
