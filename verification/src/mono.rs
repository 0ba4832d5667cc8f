//! Single producer single consumer non-buffered channel.
//!
//! The link holds one slot and a state byte with four flags: closed, full, and one
//! presence flag per endpoint.  A send fills the slot and then raises the full flag; a
//! receive empties the slot and then clears it.

use crate::error::{Fault, RecvError, RecvErrorNoWait, SendError, SendErrorNoWait};
use crate::mono::flags::{
    attach_rx, attach_tx, closed_raised, fields, full_marked, mark_full, plan_reclaim, plan_recv,
    plan_send, raise_closed, reclaim_answers, reclaim_plan, reclaim_told, recv_answers, recv_plan,
    recv_told, rx_attached, send_answers, send_plan, send_told, tx_attached, RecvPlan, SendPlan,
};
use crate::poll::{recv_polled, send_kept, send_polled, settle_recv, settle_send, Polled};
use crate::slot::Slot;
use crate::utils::{
    borrowed, compare_exchange_loop, concluded, AtomicUpdate, AtomicValue,
    ATOMIC_UPDATE_MAX_ITERATIONS,
};
use core::borrow::Borrow;
use core::marker::PhantomData;
use core::sync::atomic::AtomicU8;
use core::task::Waker;
use futures::task::AtomicWaker;
use vstd::prelude::*;

pub mod flags;
pub mod interleaving;
pub mod model;

verus! {

/// A medium through which [`Rx`] and [`Tx`] communicate.
#[verifier::reject_recursive_types(T)]
pub struct Link<T> {
    flags: AtomicU8,
    rx_waker: AtomicWaker,
    tx_waker: AtomicWaker,
    slot: Slot<T>,
}

/// The receiving side of the channel.
///
/// Dropping it closes nothing: closing wakes the producer, which runs code of the
/// scheduler, and a destructor must not run what may unwind.  Call [`Rx::close`].
#[verifier::reject_recursive_types(T)]
#[verifier::reject_recursive_types(L)]
pub struct Rx<T, L> where L: Borrow<Link<T>> {
    link: L,
    _value: PhantomData<T>,
}

/// The sending side of the channel.
///
/// Dropping it closes nothing: closing wakes the consumer, which runs code of the
/// scheduler, and a destructor must not run what may unwind.  Call [`Tx::close`].
#[verifier::reject_recursive_types(T)]
#[verifier::reject_recursive_types(L)]
pub struct Tx<T, L> where L: Borrow<Link<T>> {
    link: L,
    _value: PhantomData<T>,
}

impl<T, L> Rx<T, L> where L: Borrow<Link<T>> {
    /// Creates a new [`Rx`], the one consumer of `link`.  A link that has a consumer
    /// already refuses with [`Fault::AlreadyAttached`].
    pub fn new(link: L) -> (r: Result<Self, Fault>)
        ensures
            r matches Err(fault) ==> fault == Fault::AlreadyAttached || fault
                == Fault::UpdateExhausted,
    {
        match borrowed::<Link<T>, L>(&link).set_rx() {
            Ok(()) => Ok(Rx { link, _value: PhantomData }),
            Err(fault) => Err(fault),
        }
    }

    /// Receives the value if one is there.
    pub fn recv_nowait(&mut self) -> (r: Result<Result<T, RecvErrorNoWait>, Fault>)
        ensures
            recv_answers(r),
            r matches Err(fault) ==> fault == Fault::Corrupted || fault == Fault::UpdateExhausted,
    {
        borrowed::<Link<T>, L>(&self.link).recv_nowait()
    }

    /// One step of a waiting receive: registers `waker` to be woken when the producer
    /// sends or closes, then tries to receive.  While the slot is empty and the channel
    /// open the answer is [`Polled::Pending`].
    pub fn poll_recv(&mut self, waker: &Waker) -> (r: Result<Polled<Result<T, RecvError>>, Fault>)
        ensures
            exists|outcome: Result<Result<T, RecvErrorNoWait>, Fault>|
                recv_answers(outcome) && r == #[trigger] recv_polled(outcome),
    {
        borrowed::<Link<T>, L>(&self.link).poll_recv(waker)
    }

    /// Closes the channel and wakes the producer.
    pub fn close(&mut self) -> (r: Result<(), Fault>)
        ensures
            r matches Err(fault) ==> fault == Fault::UpdateExhausted,
    {
        borrowed::<Link<T>, L>(&self.link).close(true, false)
    }
}

impl<T, L> Tx<T, L> where L: Borrow<Link<T>> {
    /// Creates a new [`Tx`], the one producer of `link`.  A link that has a producer
    /// already refuses with [`Fault::AlreadyAttached`].
    pub fn new(link: L) -> (r: Result<Self, Fault>)
        ensures
            r matches Err(fault) ==> fault == Fault::AlreadyAttached || fault
                == Fault::UpdateExhausted,
    {
        match borrowed::<Link<T>, L>(&link).set_tx() {
            Ok(()) => Ok(Tx { link, _value: PhantomData }),
            Err(fault) => Err(fault),
        }
    }

    /// Sends a value if the slot is free.  A value that is not accepted comes back
    /// unchanged inside the error.
    pub fn send_nowait(&mut self, value: T) -> (r: Result<Result<(), SendErrorNoWait<T>>, Fault>)
        ensures
            send_answers(value, r),
            r matches Ok(Err(rejected)) ==> rejected.value() == value,
            r matches Err(fault) ==> fault == Fault::Corrupted || fault == Fault::UpdateExhausted,
    {
        borrowed::<Link<T>, L>(&self.link).send_nowait(value)
    }

    /// One step of a waiting send: registers `waker` to be woken when the consumer frees
    /// the slot, then tries to send the value held in `value`.  While the slot is taken
    /// the value stays in `value` and the answer is [`Polled::Pending`].
    pub fn poll_send(&mut self, waker: &Waker, value: &mut Option<T>) -> (r: Result<
        Polled<Result<(), SendError<T>>>,
        Fault,
    >)
        requires
            *old(value) is Some,
        ensures
            exists|outcome: Result<Result<(), SendErrorNoWait<T>>, Fault>|
                send_answers(old(value)->0, outcome) && r == #[trigger] send_polled(outcome)
                    && *final(value) == send_kept(outcome),
            r matches Ok(Polled::Pending) ==> *final(value) == *old(value),
            r matches Ok(Polled::Ready(Err(rejected))) ==> Some(rejected.value()) == *old(value),
            !(r matches Ok(Polled::Pending)) ==> *final(value) is None,
    {
        borrowed::<Link<T>, L>(&self.link).poll_send(waker, value)
    }

    /// Closes the channel and wakes the consumer.
    pub fn close(&mut self) -> (r: Result<(), Fault>)
        ensures
            r matches Err(fault) ==> fault == Fault::UpdateExhausted,
    {
        borrowed::<Link<T>, L>(&self.link).close(false, true)
    }
}

impl<T> Link<T> {
    /// Creates a new [`Link`]: open, empty, with no endpoint attached.
    pub fn new() -> Self {
        Link {
            flags: AtomicU8::new(0),
            rx_waker: AtomicWaker::new(),
            tx_waker: AtomicWaker::new(),
            slot: Slot::new(),
        }
    }

    /// Destroys the value that was sent and never received, if there is one, and says how
    /// many values that were.  This is what tearing the link down comes to; it is refused
    /// with [`Fault::StillAttached`] while the link is open with an endpoint attached.
    pub fn reclaim(&mut self) -> (r: Result<usize, Fault>)
        ensures
            reclaim_answers(r),
            r matches Err(fault) ==> fault == Fault::StillAttached || fault == Fault::Corrupted,
            r matches Ok(count) ==> count <= 1,
    {
        let flags = AtomicValue::load(&self.flags);
        self.reclaim_seen(flags)
    }

    /// Carries out what [`plan_reclaim`] decides for the byte `flags`.
    fn reclaim_seen(&self, flags: u8) -> (r: Result<usize, Fault>)
        ensures
            reclaim_told(reclaim_plan(fields(flags)), r),
    {
        match plan_reclaim(flags) {
            Err(fault) => Err(fault),
            Ok(0) => Ok(0),
            Ok(count) => {
                if self.slot.take().is_none() {
                    return Err(Fault::Corrupted);
                }
                Ok(count)
            },
        }
    }
}

impl<T> Link<T> {
    fn poll_recv(&self, waker: &Waker) -> (r: Result<Polled<Result<T, RecvError>>, Fault>)
        ensures
            exists|outcome: Result<Result<T, RecvErrorNoWait>, Fault>|
                recv_answers(outcome) && r == #[trigger] recv_polled(outcome),
    {
        self.rx_waker.register(waker);
        settle_recv(self.recv_nowait())
    }

    fn poll_send(&self, waker: &Waker, value: &mut Option<T>) -> (r: Result<
        Polled<Result<(), SendError<T>>>,
        Fault,
    >)
        requires
            *old(value) is Some,
        ensures
            exists|outcome: Result<Result<(), SendErrorNoWait<T>>, Fault>|
                send_answers(old(value)->0, outcome) && r == #[trigger] send_polled(outcome)
                    && *final(value) == send_kept(outcome),
            r matches Ok(Polled::Pending) ==> *final(value) == *old(value),
            r matches Ok(Polled::Ready(Err(rejected))) ==> Some(rejected.value()) == *old(value),
            !(r matches Ok(Polled::Pending)) ==> *final(value) is None,
    {
        self.tx_waker.register(waker);
        let held = value.take().unwrap();
        let outcome = self.send_nowait(held);
        settle_send(outcome, value)
    }

    fn recv_nowait(&self) -> (r: Result<Result<T, RecvErrorNoWait>, Fault>)
        ensures
            recv_answers(r),
            r matches Err(fault) ==> fault == Fault::Corrupted || fault == Fault::UpdateExhausted,
    {
        let flags = AtomicValue::load(&self.flags);
        self.recv_seen(flags)
    }

    /// Carries out what [`plan_recv`] decides for the byte `flags`.
    fn recv_seen(&self, flags: u8) -> (r: Result<Result<T, RecvErrorNoWait>, Fault>)
        ensures
            recv_told(recv_plan(fields(flags)), r),
    {
        match plan_recv(flags) {
            RecvPlan::Closed => Ok(Err(RecvErrorNoWait::closed())),
            RecvPlan::Empty => Ok(Err(RecvErrorNoWait::empty())),
            RecvPlan::Take => {
                let value = match self.slot.take() {
                    Some(value) => value,
                    None => {
                        return Err(Fault::Corrupted);
                    },
                };
                let update = |seen: u8| -> (asked: Result<AtomicUpdate<u8>, Fault>)
                    ensures
                        full_marked(seen, false, asked),
                    { mark_full(seen, false) };
                let marked = compare_exchange_loop(
                    &self.flags,
                    ATOMIC_UPDATE_MAX_ITERATIONS,
                    Some(flags),
                    update,
                );
                match marked {
                    Ok(_) => {
                        self.tx_waker.wake();
                        Ok(Ok(value))
                    },
                    Err(_) => Err(Fault::UpdateExhausted),
                }
            },
        }
    }

    fn send_nowait(&self, value: T) -> (r: Result<Result<(), SendErrorNoWait<T>>, Fault>)
        ensures
            send_answers(value, r),
            r matches Ok(Err(rejected)) ==> rejected.value() == value,
            r matches Err(fault) ==> fault == Fault::Corrupted || fault == Fault::UpdateExhausted,
    {
        let flags = AtomicValue::load(&self.flags);
        self.send_seen(flags, value)
    }

    /// Carries out what [`plan_send`] decides for the byte `flags`.
    fn send_seen(&self, flags: u8, value: T) -> (r: Result<Result<(), SendErrorNoWait<T>>, Fault>)
        ensures
            send_told(send_plan(fields(flags)), value, r),
    {
        match plan_send(flags) {
            SendPlan::Closed => Ok(Err(SendErrorNoWait::closed(value))),
            SendPlan::Full => Ok(Err(SendErrorNoWait::full(value))),
            SendPlan::Write => {
                if self.slot.write(value).is_some() {
                    return Err(Fault::Corrupted);
                }
                let update = |seen: u8| -> (asked: Result<AtomicUpdate<u8>, Fault>)
                    ensures
                        full_marked(seen, true, asked),
                    { mark_full(seen, true) };
                let marked = compare_exchange_loop(
                    &self.flags,
                    ATOMIC_UPDATE_MAX_ITERATIONS,
                    Some(flags),
                    update,
                );
                match marked {
                    Ok(_) => {
                        self.rx_waker.wake();
                        Ok(Ok(()))
                    },
                    Err(_) => Err(Fault::UpdateExhausted),
                }
            },
        }
    }

    fn close(&self, notify_tx: bool, notify_rx: bool) -> (r: Result<(), Fault>)
        ensures
            r matches Err(fault) ==> fault == Fault::UpdateExhausted,
    {
        let update = |seen: u8| -> (asked: Result<AtomicUpdate<u8>, Fault>)
            ensures
                closed_raised(seen, asked),
            { raise_closed(seen) };
        let raised = compare_exchange_loop(&self.flags, ATOMIC_UPDATE_MAX_ITERATIONS, None, update);
        if let Err(fault) = concluded(raised) {
            return Err(fault);
        }
        if notify_tx {
            self.tx_waker.wake();
        }
        if notify_rx {
            self.rx_waker.wake();
        }
        Ok(())
    }

    fn set_tx(&self) -> (r: Result<(), Fault>)
        ensures
            r matches Err(fault) ==> fault == Fault::AlreadyAttached || fault
                == Fault::UpdateExhausted,
    {
        let update = |seen: u8| -> (asked: Result<AtomicUpdate<u8>, Fault>)
            ensures
                tx_attached(seen, asked),
            { attach_tx(seen) };
        let attached = compare_exchange_loop(
            &self.flags,
            ATOMIC_UPDATE_MAX_ITERATIONS,
            None,
            update,
        );
        match concluded(attached) {
            Ok(_) => Ok(()),
            Err(fault) => Err(fault),
        }
    }

    fn set_rx(&self) -> (r: Result<(), Fault>)
        ensures
            r matches Err(fault) ==> fault == Fault::AlreadyAttached || fault
                == Fault::UpdateExhausted,
    {
        let update = |seen: u8| -> (asked: Result<AtomicUpdate<u8>, Fault>)
            ensures
                rx_attached(seen, asked),
            { attach_rx(seen) };
        let attached = compare_exchange_loop(
            &self.flags,
            ATOMIC_UPDATE_MAX_ITERATIONS,
            None,
            update,
        );
        match concluded(attached) {
            Ok(_) => Ok(()),
            Err(fault) => Err(fault),
        }
    }
}

impl<T> Default for Link<T> {
    fn default() -> Self {
        Link::new()
    }
}

} // verus!
