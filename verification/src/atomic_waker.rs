//! The cell in which a channel keeps the task to notify: `futures::task::AtomicWaker`,
//! declared here together with the little that its calls promise.

use vstd::prelude::*;

verus! {

/// `futures::task::AtomicWaker`, a cell for the handle of one task.  No contract here
/// speaks of what it holds.
#[verifier::external_type_specification]
#[verifier::external_body]
pub struct ExAtomicWaker(futures::task::AtomicWaker);

/// `core::task::Waker`, the handle by which a scheduler is told to poll a task again.
#[verifier::external_type_specification]
#[verifier::external_body]
pub struct ExWaker(core::task::Waker);

/// `AtomicWaker::new` makes a cell with no task registered.  The cell is opaque here, so
/// the contract has nothing to say.
pub assume_specification[ futures::task::AtomicWaker::new ]() -> (cell: futures::task::AtomicWaker);

/// `AtomicWaker::register` stores a handle to the task behind `waker`, replacing any
/// earlier one; when a wake-up is under way it notifies `waker` at once instead.  Nothing
/// is returned and nothing visible here changes.
pub assume_specification[ futures::task::AtomicWaker::register ](
    cell: &futures::task::AtomicWaker,
    waker: &core::task::Waker,
);

/// `AtomicWaker::wake` takes the registered handle, if there is one, and notifies its task
/// once.  Nothing is returned and nothing visible here changes.
pub assume_specification[ futures::task::AtomicWaker::wake ](cell: &futures::task::AtomicWaker);

} // verus!
