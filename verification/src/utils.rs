//! What the three channels share: bitfields, and the bounded update of an atomic word.

use crate::error::Fault;
use core::borrow::Borrow;
use core::sync::atomic::{AtomicU8, AtomicUsize, Ordering};
use vstd::prelude::*;

pub mod bits;
pub mod ring;

verus! {

/// How often an update of a state word is attempted before it is given up.
pub const ATOMIC_UPDATE_MAX_ITERATIONS: usize = 1024;

/// How often an endpoint looks at a state word while it waits for its turn before it
/// gives up.  Waiting for a turn is waiting for another thread to finish a few
/// instructions, which takes as long as the scheduler keeps that thread off the
/// processor; the ceiling is there to end the wait, not to time it.
pub const ATOMIC_TURN_MAX_ITERATIONS: usize = 1_073_741_824;

/// An atomic cell that can be read and conditionally replaced.
///
/// Other threads may write the cell at any moment, so neither method promises anything
/// about the value it returns.  Every read of the cell acquires and every store to it
/// releases: what a thread wrote to a slot before it stored a word is there for the
/// thread that has read that word.
pub trait AtomicValue {
    type Value: Copy;

    /// Reads the cell.
    fn load(&self) -> Self::Value;

    /// Stores `new` if the cell still holds `old`, and reports what it held: `Ok` when
    /// the store happened, `Err` otherwise.
    fn compare_exchange(&self, old: Self::Value, new: Self::Value) -> Result<
        Self::Value,
        Self::Value,
    >;
}

impl AtomicValue for AtomicU8 {
    type Value = u8;

    #[inline(always)]
    fn load(&self) -> u8 {
        AtomicU8::load(self, Ordering::Acquire)
    }

    #[inline(always)]
    fn compare_exchange(&self, old: u8, new: u8) -> Result<u8, u8> {
        AtomicU8::compare_exchange(self, old, new, Ordering::AcqRel, Ordering::Acquire)
    }
}

impl AtomicValue for AtomicUsize {
    type Value = usize;

    #[inline(always)]
    fn load(&self) -> usize {
        AtomicUsize::load(self, Ordering::Acquire)
    }

    #[inline(always)]
    fn compare_exchange(&self, old: usize, new: usize) -> Result<usize, usize> {
        AtomicUsize::compare_exchange(self, old, new, Ordering::AcqRel, Ordering::Acquire)
    }
}

/// What a transform asks of [`compare_exchange_loop`] for the value it was shown.
pub enum AtomicUpdate<T> {
    /// Nothing can be stored yet: read the cell again.
    Retry,
    /// Store this value.
    Store(T),
}

/// The transform `map_value` raises an error whatever value it is shown.
pub open spec fn refuses_all<V, E, F: Fn(V) -> Result<AtomicUpdate<V>, E>>(map_value: F) -> bool {
    forall|seen: V, asked: Result<AtomicUpdate<V>, E>| #[trigger]
        map_value.ensures((seen,), asked) ==> asked is Err
}

/// The transform `map_value` raises an error when it is shown `shown`.
pub open spec fn refuses<V, E, F: Fn(V) -> Result<AtomicUpdate<V>, E>>(
    map_value: F,
    shown: V,
) -> bool {
    forall|asked: Result<AtomicUpdate<V>, E>| #[trigger]
        map_value.ensures((shown,), asked) ==> asked is Err
}

/// What an attempt to swap `new` in comes to: `new` is stored where the cell still held
/// the value shown, and else the round is lost and the cell is known to hold what the
/// swap reported.
pub open spec fn swapped_to<V>(new: V, swapped: Result<V, V>) -> Result<V, V> {
    match swapped {
        Ok(_) => Ok(new),
        Err(current) => Err(current),
    }
}

/// Says what follows an attempt to swap `new` in, from what the swap reported: the end
/// of the update with `new` stored, or another round on the value that the cell held
/// instead.
pub fn after_swap<V>(new: V, swapped: Result<V, V>) -> (r: Result<V, V>)
    ensures
        r == swapped_to(new, swapped),
{
    match swapped {
        Ok(_) => Ok(new),
        Err(current) => Err(current),
    }
}

/// Updates `atomic_value` to what `map_value` makes of its content, in at most
/// `max_attempts` rounds.
///
/// The first round works on `old_value`, or on a fresh read where none is given.  Each
/// round shows the value last seen to `map_value`.  An error of the transform ends the
/// loop and is returned as `Err(Some(..))`.  On `Retry` the cell is read again.  On
/// `Store(new)` the loop tries to swap `new` in and goes by [`after_swap`]: it returns
/// `Ok(new)` if the cell still held the value shown, and goes on with what the cell held
/// otherwise.  `Err(None)` says that the rounds were used up with nothing stored.
///
/// Whatever comes back came from the transform: a stored value is one that it asked to
/// store for some value of the cell, an error is one that it raised.  With no round to
/// spend nothing is stored, and a transform that refuses every value is heard in the
/// first round.  Where a value is given to start from, the first round is about that
/// value: if the transform refuses it, that refusal is the result, and with a single
/// round whatever is stored or refused was asked for that value.
pub fn compare_exchange_loop<A, F, E>(
    atomic_value: &A,
    max_attempts: usize,
    old_value: Option<A::Value>,
    map_value: F,
) -> (r: Result<A::Value, Option<E>>) where
    A: AtomicValue,
    F: Fn(A::Value) -> Result<AtomicUpdate<A::Value>, E>,

    requires
        forall|seen: A::Value| map_value.requires((seen,)),
    ensures
        r matches Ok(stored) ==> exists|seen: A::Value| #[trigger]
            map_value.ensures((seen,), Ok(AtomicUpdate::Store(stored))),
        r matches Err(Some(error)) ==> exists|seen: A::Value| #[trigger]
            map_value.ensures((seen,), Err(error)),
        max_attempts == 0 ==> r is Err && r->Err_0 is None,
        max_attempts > 0 && refuses_all(map_value) ==> r is Err && r->Err_0 is Some,
        max_attempts > 0 && old_value is Some && refuses(map_value, old_value->0) ==> (r matches Err(
            Some(error),
        ) && map_value.ensures((old_value->0,), Err(error))),
        max_attempts == 1 && old_value is Some ==> {
            &&& r matches Ok(stored) ==> map_value.ensures(
                (old_value->0,),
                Ok(AtomicUpdate::Store(stored)),
            )
            &&& r matches Err(Some(error)) ==> map_value.ensures((old_value->0,), Err(error))
        },
{
    let mut seen = match old_value {
        Some(value) => value,
        None => atomic_value.load(),
    };
    let mut attempt: usize = 0;
    while attempt < max_attempts
        invariant
            forall|seen: A::Value| map_value.requires((seen,)),
            attempt <= max_attempts,
            attempt > 0 ==> !refuses_all(map_value),
            attempt == 0 && old_value is Some ==> seen == old_value->0,
            attempt > 0 && old_value is Some ==> !refuses(map_value, old_value->0),
        decreases max_attempts - attempt,
    {
        attempt += 1;
        match map_value(seen) {
            Err(error) => {
                let r = Err(Some(error));
                assert(r matches Err(Some(e)) ==> map_value.ensures((seen,), Err(e)));
                return r;
            },
            Ok(AtomicUpdate::Retry) => {
                assert(map_value.ensures((seen,), Ok(AtomicUpdate::Retry)));
                seen = atomic_value.load();
            },
            Ok(AtomicUpdate::Store(new_value)) => {
                assert(map_value.ensures((seen,), Ok(AtomicUpdate::Store(new_value))));
                match after_swap(new_value, atomic_value.compare_exchange(seen, new_value)) {
                    Ok(stored) => {
                        let r = Ok(stored);
                        assert(r matches Ok(stored) ==> map_value.ensures(
                            (seen,),
                            Ok(AtomicUpdate::Store(stored)),
                        ));
                        return r;
                    },
                    Err(current) => {
                        seen = current;
                    },
                }
            },
        }
    }
    Err(None)
}

/// What an update without a refusal of its own comes to: the stored value, or the fault
/// that the loop ran out of rounds.
pub open spec fn concluded_as<V>(outcome: Result<V, Option<Fault>>) -> Result<V, Fault> {
    match outcome {
        Ok(stored) => Ok(stored),
        Err(Some(fault)) => Err(fault),
        Err(None) => Err(Fault::UpdateExhausted),
    }
}

/// Turns what [`compare_exchange_loop`] returned into the result of the operation that
/// ran it: running out of rounds is the fault [`Fault::UpdateExhausted`].
pub fn concluded<V>(outcome: Result<V, Option<Fault>>) -> (r: Result<V, Fault>)
    ensures
        r == concluded_as(outcome),
{
    match outcome {
        Ok(stored) => Ok(stored),
        Err(Some(fault)) => Err(fault),
        Err(None) => Err(Fault::UpdateExhausted),
    }
}

/// Calls `Borrow::borrow`.  An implementation of that trait may hand out any reference
/// it likes, so nothing is claimed of the result.
#[verifier::external_body]
pub(crate) fn borrowed<X, L: Borrow<X>>(holder: &L) -> (held: &X) {
    holder.borrow()
}

/// Calls `AsRef::as_ref`.  An implementation of that trait may hand out any slice it
/// likes, so nothing is claimed of the result, not even that two calls agree.
#[verifier::external_body]
pub(crate) fn as_slice<X, B: AsRef<[X]>>(holder: &B) -> (held: &[X]) {
    holder.as_ref()
}

} // verus!
