//! The seats of a link: one per endpoint that may be attached at a time, each with the
//! cell that holds the task to wake.  Every live endpoint also counts as one reference
//! to the link.

use crate::error::Fault;
use crate::mpmc::Link;
use crate::slot::Slot;
use crate::utils::as_slice;
use core::sync::atomic::{AtomicBool, AtomicUsize, Ordering};
use futures::task::AtomicWaker;
use vstd::prelude::*;

verus! {

/// Counting an endpoint in fails where the counter stood at its top.
pub open spec fn counted_in(previous: usize) -> Result<(), Fault> {
    if previous == usize::MAX {
        Err(Fault::RefCount)
    } else {
        Ok(())
    }
}

/// Counting an endpoint out fails where the counter stood at zero.
pub open spec fn counted_out(previous: usize) -> Result<(), Fault> {
    if previous == 0 {
        Err(Fault::RefCount)
    } else {
        Ok(())
    }
}

/// Says whether an endpoint was counted in, from what the counter held before.
pub fn count_in(previous: usize) -> (r: Result<(), Fault>)
    ensures
        r == counted_in(previous),
{
    if previous == usize::MAX {
        Err(Fault::RefCount)
    } else {
        Ok(())
    }
}

/// Says whether an endpoint was counted out, from what the counter held before.
pub fn count_out(previous: usize) -> (r: Result<(), Fault>)
    ensures
        r == counted_out(previous),
{
    if previous == 0 {
        Err(Fault::RefCount)
    } else {
        Ok(())
    }
}

/// What the attempt to occupy seat `idx` comes to: the seat, where it was free before.
pub open spec fn seat_taken_as(idx: usize, was_occupied: bool) -> Option<usize> {
    if was_occupied {
        None
    } else {
        Some(idx)
    }
}

/// Says whether seat `idx` now belongs to the endpoint that tried to occupy it, from
/// what its flag held before: the seat is the endpoint's exactly when it was free.
pub fn seat_taken(idx: usize, was_occupied: bool) -> (r: Option<usize>)
    ensures
        r == seat_taken_as(idx, was_occupied),
{
    if was_occupied {
        None
    } else {
        Some(idx)
    }
}

/// Giving a seat back fails where the seat was free already.
pub open spec fn seat_left_as(was_occupied: bool) -> Result<(), Fault> {
    if was_occupied {
        Ok(())
    } else {
        Err(Fault::SeatNotOccupied)
    }
}

/// Says whether a seat was given back, from what its flag held before.
pub fn seat_left(was_occupied: bool) -> (r: Result<(), Fault>)
    ensures
        r == seat_left_as(was_occupied),
{
    if was_occupied {
        Ok(())
    } else {
        Err(Fault::SeatNotOccupied)
    }
}

/// Wakes the task of every seat.
pub(crate) fn wake_all(wakers: &[(AtomicBool, AtomicWaker)]) {
    let mut idx: usize = 0;
    while idx < wakers.len()
        decreases wakers.len() - idx,
    {
        wakers[idx].1.wake();
        idx += 1;
    }
}

impl<T, B, TW, RW> Link<T, B, TW, RW> where
    B: AsRef<[Slot<T>]>,
    TW: AsRef<[(AtomicBool, AtomicWaker)]>,
    RW: AsRef<[(AtomicBool, AtomicWaker)]>,
 {
    pub(super) fn attach_tx(&self) -> (r: Result<usize, Fault>)
        ensures
            r matches Err(fault) ==> fault == Fault::SeatsExhausted || fault == Fault::RefCount,
    {
        self.attach(as_slice::<(AtomicBool, AtomicWaker), TW>(&self.tx_wakers))
    }

    pub(super) fn attach_rx(&self) -> (r: Result<usize, Fault>)
        ensures
            r matches Err(fault) ==> fault == Fault::SeatsExhausted || fault == Fault::RefCount,
    {
        self.attach(as_slice::<(AtomicBool, AtomicWaker), RW>(&self.rx_wakers))
    }

    pub(super) fn detach_tx(&self, idx: usize) -> (r: Result<(), Fault>)
        ensures
            r matches Err(fault) ==> fault == Fault::SeatNotOccupied || fault == Fault::RefCount,
    {
        self.detach(as_slice::<(AtomicBool, AtomicWaker), TW>(&self.tx_wakers), idx)
    }

    pub(super) fn detach_rx(&self, idx: usize) -> (r: Result<(), Fault>)
        ensures
            r matches Err(fault) ==> fault == Fault::SeatNotOccupied || fault == Fault::RefCount,
    {
        self.detach(as_slice::<(AtomicBool, AtomicWaker), RW>(&self.rx_wakers), idx)
    }

    /// Occupies the first free seat of `wakers` and counts the new endpoint.
    fn attach(&self, wakers: &[(AtomicBool, AtomicWaker)]) -> (r: Result<usize, Fault>)
        ensures
            r matches Ok(idx) ==> idx < wakers@.len(),
            r matches Err(fault) ==> fault == Fault::SeatsExhausted || fault == Fault::RefCount,
            wakers@.len() == 0 ==> r == Err::<usize, _>(Fault::SeatsExhausted),
    {
        let mut idx: usize = 0;
        while idx < wakers.len()
            decreases wakers.len() - idx,
        {
            if let Some(seat) = seat_taken(idx, wakers[idx].0.swap(true, Ordering::SeqCst)) {
                return match self.ref_inc() {
                    Ok(()) => Ok(seat),
                    Err(fault) => Err(fault),
                };
            }
            idx += 1;
        }
        Err(Fault::SeatsExhausted)
    }

    /// Frees seat `idx` of `wakers` and discounts its endpoint.
    fn detach(&self, wakers: &[(AtomicBool, AtomicWaker)], idx: usize) -> (r: Result<(), Fault>)
        ensures
            r matches Err(fault) ==> fault == Fault::SeatNotOccupied || fault == Fault::RefCount,
            idx >= wakers@.len() ==> r == Err::<(), _>(Fault::SeatNotOccupied),
    {
        if idx >= wakers.len() {
            return Err(Fault::SeatNotOccupied);
        }
        if let Err(fault) = seat_left(wakers[idx].0.swap(false, Ordering::SeqCst)) {
            return Err(fault);
        }
        self.ref_dec()
    }

    fn ref_inc(&self) -> (r: Result<(), Fault>)
        ensures
            r matches Err(fault) ==> fault == Fault::RefCount,
    {
        count_in(self.refs.fetch_add(1, Ordering::SeqCst))
    }

    fn ref_dec(&self) -> (r: Result<(), Fault>)
        ensures
            r matches Err(fault) ==> fault == Fault::RefCount,
    {
        count_out(self.refs.fetch_sub(1, Ordering::SeqCst))
    }

    /// The number of endpoints attached right now.
    pub(super) fn references(&self) -> usize {
        self.refs.load(Ordering::SeqCst)
    }
}

} // verus!
