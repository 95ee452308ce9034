//! Trusted boundary around `arc_swap`: an atomically replaceable cell.
//!
//! The readiness state of a fence-tracked upload must be replaceable from the
//! poll path while stale readers still hold the previous value, which is
//! exactly what `arc_swap::ArcSwap` provides. The cell stores a one-byte
//! state code. `arc_swap`'s strategy types cannot be named outside that
//! crate, so the `ArcSwap` sits in a field of an opaque struct of ours;
//! [`stored_code`] names its current contents, and the wrappers below state
//! how each `arc_swap` call affects that name.

use vstd::prelude::*;

verus! {

/// An atomically replaceable cell holding a one-byte state code.
#[verifier::external_body]
pub struct SwapCell {
    cell: arc_swap::ArcSwap<u8>,
}

/// The state code currently held by the cell.
pub uninterp spec fn stored_code(cell: &SwapCell) -> u8;

/// Relies on `arc_swap::ArcSwapAny::new`: the new cell holds exactly the
/// value it was constructed with.
#[verifier::external_body]
pub(crate) fn cell_new(code: u8) -> (cell: SwapCell)
    ensures
        stored_code(&cell) == code,
{
    SwapCell { cell: arc_swap::ArcSwap::new(std::sync::Arc::new(code)) }
}

/// Relies on `arc_swap::ArcSwapAny::load`: returns the value the cell
/// currently holds.
#[verifier::external_body]
pub(crate) fn cell_load(cell: &SwapCell) -> (code: u8)
    ensures
        code == stored_code(cell),
{
    **cell.cell.load()
}

/// Relies on `arc_swap::ArcSwapAny::store`: replaces the cell's contents;
/// later loads yield the new value.
#[verifier::external_body]
pub(crate) fn cell_store(cell: &mut SwapCell, code: u8)
    ensures
        stored_code(final(cell)) == code,
{
    cell.cell.store(std::sync::Arc::new(code))
}

} // verus!
