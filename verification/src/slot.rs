//! Storage for at most one value.

use std::sync::{Mutex, MutexGuard};
use vstd::prelude::*;

verus! {

/// `std::sync::Mutex`, the lock that makes a slot safe to share.  No contract here
/// speaks of what it guards.
#[verifier::external_type_specification]
#[verifier::external_body]
#[verifier::reject_recursive_types(T)]
pub struct ExMutex<T: ?Sized>(Mutex<T>);

/// `std::sync::MutexGuard`, the proof of holding a lock, which gives the lock up when
/// it goes out of scope.
#[verifier::external_type_specification]
#[verifier::external_body]
#[verifier::reject_recursive_types(T)]
pub struct ExMutexGuard<'a, T: ?Sized + 'a>(MutexGuard<'a, T>);

/// `Mutex::new` makes an unlocked lock around `value`.  The content of a lock is hidden,
/// so the contract has nothing to say.
pub assume_specification<T>[ Mutex::<T>::new ](value: T) -> (lock: Mutex<T>);

/// Calls `Mutex::lock`, which waits until the lock is free and then holds it.  A lock
/// that a panicking thread left behind is entered all the same: a slot is only ever held
/// for one exchange, which cannot leave it half-written.
#[verifier::external_body]
fn enter<T>(lock: &Mutex<Option<T>>) -> (held: MutexGuard<'_, Option<T>>) {
    match lock.lock() {
        Ok(held) => held,
        Err(poisoned) => poisoned.into_inner(),
    }
}

/// Calls `core::mem::replace` on what the held lock guards: puts `new` there and hands
/// back what was there.  What was there is whatever the last thread to hold the lock
/// left, so nothing is claimed of it.
#[verifier::external_body]
fn exchange<T>(held: &mut MutexGuard<'_, Option<T>>, new: Option<T>) -> (old: Option<T>) {
    core::mem::replace(&mut **held, new)
}

/// A cell that holds one value or none and can be filled and emptied through a shared
/// reference.
///
/// A channel decides from its state word alone which slot to touch, and its index
/// protocol gives every slot one user at a time; the lock only keeps the access safe and
/// is never waited for.  What a slot holds is shared state, so the contracts of
/// [`Slot::write`] and [`Slot::take`] are silent about it.
#[verifier::reject_recursive_types(T)]
pub struct Slot<T> {
    cell: Mutex<Option<T>>,
}

impl<T> Slot<T> {
    /// A slot that holds nothing.
    pub fn new() -> Self {
        Slot { cell: Mutex::new(None) }
    }

    /// Deposits `value` and hands back what the slot held before, if anything.
    pub fn write(&self, value: T) -> Option<T> {
        let mut held = enter(&self.cell);
        exchange(&mut held, Some(value))
    }

    /// Moves the value out, leaving the slot empty; `None` if it was empty already.
    pub fn take(&self) -> Option<T> {
        let mut held = enter(&self.cell);
        exchange(&mut held, None)
    }
}

impl<T> Default for Slot<T> {
    fn default() -> Self {
        Slot::new()
    }
}

} // verus!
