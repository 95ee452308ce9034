//! The fence-tracked readiness state machine, polled through real
//! `arc_swap` cells.

use stereo_renderer::FenceCheck;
use stereo_renderer::WaitOutcome;

#[test]
fn pending_poll_times_out() {
    let mut f = FenceCheck::new(7);
    assert_eq!(f.handle, 7);
    assert!(!f.poll(WaitOutcome::Timeout));
    assert!(!f.poll(WaitOutcome::Timeout));
}

#[test]
fn pending_poll_settles_true() {
    let mut f = FenceCheck::new(1);
    assert!(!f.poll(WaitOutcome::Timeout));
    assert!(f.poll(WaitOutcome::Signaled));
}

#[test]
fn settled_true_is_monotonic() {
    let mut f = FenceCheck::new(1);
    assert!(f.poll(WaitOutcome::Signaled));
    // Once settled, later polls report the same value whatever the wait
    // would have said.
    assert!(f.poll(WaitOutcome::Failed));
    assert!(f.poll(WaitOutcome::Timeout));
    assert!(f.poll(WaitOutcome::Signaled));
}

#[test]
fn settled_false_is_permanent() {
    let mut f = FenceCheck::new(1);
    assert!(!f.poll(WaitOutcome::Failed));
    // A failed upload never retries: even a signaled wait cannot revive it.
    assert!(!f.poll(WaitOutcome::Signaled));
    assert!(!f.poll(WaitOutcome::Timeout));
    assert!(!f.poll(WaitOutcome::Failed));
}

#[test]
fn duplicate_settles_independently() {
    let mut original = FenceCheck::new(9);
    let mut copy = original.duplicate();
    assert_eq!(copy.handle, 9);
    assert!(original.poll(WaitOutcome::Signaled));
    // The copy has a cell of its own: it is still pending.
    assert!(!copy.poll(WaitOutcome::Timeout));
    assert!(copy.poll(WaitOutcome::Signaled));
}
