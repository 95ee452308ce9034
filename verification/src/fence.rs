//! Readiness state machine for a fence-tracked GPU upload.
//!
//! A resource is `Pending` while its upload is in flight and settles into
//! `Done(true)` or `Done(false)` once a zero-duration wait on the underlying
//! fence reports completion or a failure. Settled states are final: no
//! outcome of a later poll can change them.

use vstd::prelude::*;

use crate::swap_cell::cell_load;
use crate::swap_cell::cell_new;
use crate::swap_cell::cell_store;
use crate::swap_cell::stored_code;
use crate::swap_cell::SwapCell;

verus! {

/// The state of one fence-tracked upload: still in flight, or settled with
/// the success of the upload.
#[derive(Clone, Copy, PartialEq, Eq, Structural, Debug)]
pub enum FenceState {
    Pending,
    Done(bool),
}

/// What a zero-duration wait on the underlying completion primitive reported.
#[derive(Clone, Copy, PartialEq, Eq, Structural, Debug)]
pub enum WaitOutcome {
    /// The wait returned: the upload is complete.
    Signaled,
    /// The wait timed out: the upload is still in flight.
    Timeout,
    /// The wait reported a failure: the upload will never complete.
    Failed,
}

/// The state after one poll: a settled state is kept as it is; a pending
/// state settles according to what the zero-duration wait reported, staying
/// pending on a timeout.
pub open spec fn poll_step_state(s: FenceState, o: WaitOutcome) -> FenceState {
    match s {
        FenceState::Done(v) => FenceState::Done(v),
        FenceState::Pending => match o {
            WaitOutcome::Signaled => FenceState::Done(true),
            WaitOutcome::Timeout => FenceState::Pending,
            WaitOutcome::Failed => FenceState::Done(false),
        },
    }
}

/// What one poll reports to the caller: the settled value, or `false` while
/// still pending.
pub open spec fn poll_step_result(s: FenceState, o: WaitOutcome) -> bool {
    match poll_step_state(s, o) {
        FenceState::Done(v) => v,
        FenceState::Pending => false,
    }
}

/// The state after a whole sequence of polls.
pub open spec fn poll_many(s: FenceState, outs: Seq<WaitOutcome>) -> FenceState
    decreases outs.len(),
{
    if outs.len() == 0 {
        s
    } else {
        poll_many(poll_step_state(s, outs[0]), outs.drop_first())
    }
}

/// Law: a settled state is never left, whatever any number of later polls
/// report, and every poll of it reports the settled value.
pub proof fn lemma_settled_stable(v: bool, outs: Seq<WaitOutcome>)
    ensures
        poll_many(FenceState::Done(v), outs) == FenceState::Done(v),
        forall|o: WaitOutcome| poll_step_result(FenceState::Done(v), o) == v,
    decreases outs.len(),
{
    if outs.len() > 0 {
        lemma_settled_stable(v, outs.drop_first());
    }
}

/// Polling in two stretches is the same as polling once with both.
pub proof fn lemma_poll_many_append(s: FenceState, a: Seq<WaitOutcome>, b: Seq<WaitOutcome>)
    ensures
        poll_many(s, a + b) == poll_many(poll_many(s, a), b),
    decreases a.len(),
{
    if a.len() == 0 {
        assert(a + b =~= b);
    } else {
        assert((a + b).drop_first() =~= a.drop_first() + b);
        lemma_poll_many_append(poll_step_state(s, a[0]), a.drop_first(), b);
    }
}

/// Law: `poll_ready` is monotonic. Once some prefix of the polls has settled
/// the state, any longer sequence of polls leaves it at the same settled
/// value.
pub proof fn lemma_poll_monotonic(s: FenceState, a: Seq<WaitOutcome>, b: Seq<WaitOutcome>)
    requires
        poll_many(s, a) is Done,
    ensures
        poll_many(s, a + b) == poll_many(s, a),
{
    lemma_poll_many_append(s, a, b);
    let v = poll_many(s, a)->Done_0;
    lemma_settled_stable(v, b);
}

/// State code held in the atomically replaceable cell while the upload is in
/// flight.
pub const PENDING_CODE: u8 = 0;

/// State code once the upload has failed for good.
pub const FAILED_CODE: u8 = 1;

/// State code once the upload has completed.
pub const READY_CODE: u8 = 2;

/// The state a cell code stands for. Codes other than the three named ones
/// never occur; they are read as `Pending` so that the decoding is total.
pub open spec fn state_of_code(code: u8) -> FenceState {
    if code == FAILED_CODE {
        FenceState::Done(false)
    } else if code == READY_CODE {
        FenceState::Done(true)
    } else {
        FenceState::Pending
    }
}

/// A fence-tracked upload: the handle of the in-flight GPU operation, and
/// its readiness state in an atomically replaceable cell, so that the poll
/// path may settle the state while concurrent readers still hold the
/// previous value.
pub struct FenceCheck {
    /// The state cell. Replaced only by [`FenceCheck::poll`]; read it
    /// through [`FenceCheck::state`].
    pub cell: crate::swap_cell::SwapCell,
    /// Handle of the completion primitive covering the uploads, owned by the
    /// unverified GPU layer.
    pub handle: u64,
}

impl FenceCheck {
    /// The readiness state this check currently reports.
    pub open spec fn state(&self) -> FenceState {
        state_of_code(stored_code(&self.cell))
    }

    /// A new check over the in-flight operation `handle`, still pending.
    pub fn new(handle: u64) -> (f: FenceCheck)
        ensures
            f.state() == FenceState::Pending,
            f.handle == handle,
    {
        FenceCheck { cell: cell_new(PENDING_CODE), handle }
    }

    /// One non-blocking poll. `outcome` is what the zero-duration wait on
    /// the underlying fence reported; it is consulted only while the state
    /// is still pending — a settled state answers immediately.
    pub fn poll(&mut self, outcome: WaitOutcome) -> (r: bool)
        ensures
            final(self).state() == poll_step_state(old(self).state(), outcome),
            r == poll_step_result(old(self).state(), outcome),
            final(self).handle == old(self).handle,
    {
        let code = cell_load(&self.cell);
        if code == FAILED_CODE {
            false
        } else if code == READY_CODE {
            true
        } else {
            match outcome {
                WaitOutcome::Signaled => {
                    cell_store(&mut self.cell, READY_CODE);
                    true
                },
                WaitOutcome::Timeout => false,
                WaitOutcome::Failed => {
                    cell_store(&mut self.cell, FAILED_CODE);
                    false
                },
            }
        }
    }

    /// A new check in the same state over the same operation, with a cell of
    /// its own: later polls of the copy settle independently.
    pub fn duplicate(&self) -> (f: FenceCheck)
        ensures
            f.state() == self.state(),
            f.handle == self.handle,
    {
        FenceCheck { cell: cell_new(cell_load(&self.cell)), handle: self.handle }
    }
}

} // verus!
