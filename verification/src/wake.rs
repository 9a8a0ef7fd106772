//! Parking and waking of suspended tasks.
//!
//! A poll step that cannot make progress parks the task's waker in an
//! [`AtomicWaker`]; the step that makes progress possible wakes it.

use vstd::prelude::*;

use atomic_waker::AtomicWaker;
use core::task::Waker;

verus! {

/// The waker cell of the `atomic_waker` crate.
#[verifier::external_type_specification]
#[verifier::external_body]
pub struct ExAtomicWaker(AtomicWaker);

/// The standard library's task handle.
#[verifier::external_type_specification]
#[verifier::external_body]
pub struct ExWaker(Waker);

/// Whether `cell` holds a waker that a later wake will notify.
pub uninterp spec fn waker_parked(cell: AtomicWaker) -> bool;

/// `AtomicWaker::new`: the new cell holds no waker.
#[verifier::external_body]
pub(crate) fn new_waker_cell() -> (cell: AtomicWaker)
    ensures
        !waker_parked(cell),
{
    AtomicWaker::new()
}

/// `AtomicWaker::register`: the waker takes the place of any that was parked
/// before. The exclusive reference rules out a concurrent wake, so the waker
/// is still parked when the call returns.
#[verifier::external_body]
pub(crate) fn park_waker(cell: &mut AtomicWaker, waker: &Waker)
    ensures
        waker_parked(*final(cell)),
{
    cell.register(waker);
}

/// `AtomicWaker::wake`: notifies the parked waker, if there is one, and leaves
/// the cell empty.
#[verifier::external_body]
pub(crate) fn wake_parked(cell: &mut AtomicWaker)
    ensures
        !waker_parked(*final(cell)),
{
    cell.wake();
}

/// What a single poll of a suspended operation reports.
pub enum PollState<T> {
    /// The operation finished with this value.
    Ready(T),
    /// The operation has to wait; the caller's waker has been parked.
    Pending,
}

} // verus!
