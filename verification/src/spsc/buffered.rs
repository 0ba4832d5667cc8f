//! Single producer single consumer buffered channel.
//!
//! The link keeps a closed flag, one presence flag per endpoint and the two ring indices
//! in one atomic word.  The producer is the only one to move the tail and the consumer the
//! only one to move the head; each publishes its move with a bounded compare-and-swap
//! loop and then wakes the other.

use futures::task::AtomicWaker;
use crate::error::{Fault, RecvError, RecvErrorNoWait, SendError, SendErrorNoWait};
use crate::poll::{recv_polled, send_kept, send_polled, settle_recv, settle_send, Polled};
use crate::slot::Slot;
use crate::spsc::buffered::bits::{fields, lemma_layout};
use crate::spsc::buffered::ring::{
    check_capacity, attach_rx, attach_tx, closed_raised, head_moved, move_head, move_tail, plan_reclaim,
    plan_recv, plan_send, raise_closed, reclaim_answers, reclaim_plan, reclaim_told, recv_answers,
    recv_plan, recv_told, rx_attached, send_answers, send_plan, send_told, tail_moved, tx_attached,
    RecvPlan, SendPlan,
};
use crate::utils::ring::step;
use crate::utils::{
    as_slice, borrowed, compare_exchange_loop, concluded, AtomicUpdate, AtomicValue,
    ATOMIC_UPDATE_MAX_ITERATIONS,
};
use core::borrow::Borrow;
use core::marker::PhantomData;
use core::sync::atomic::AtomicUsize;
use core::task::Waker;
use vstd::prelude::*;

pub mod bits;
pub mod interleaving;
pub mod model;
pub mod ring;

verus! {

/// A medium through which [`Rx`] and [`Tx`] communicate.
#[verifier::reject_recursive_types(T)]
#[verifier::reject_recursive_types(B)]
pub struct Link<T, B> {
    /// 1bit — closed
    /// 1bit — tx is set
    /// 1bit — rx is set
    ///
    /// 14bit / 30bit — head
    /// 14bit / 30bit — tail
    ///
    /// 1bit — unused
    ///
    /// for 32bit usize max capacity — 16_384-1
    /// for 64bit usize max capacity — 1_073_741_824-1
    bits: AtomicUsize,
    tx_waker: AtomicWaker,
    rx_waker: AtomicWaker,
    _value: PhantomData<T>,
    buffer: B,
}

/// The sending side of the channel.
///
/// Dropping it closes nothing: closing wakes the consumer, which runs code of the
/// scheduler, and a destructor must not run what may unwind.  Call [`Tx::close`].
#[verifier::reject_recursive_types(T)]
#[verifier::reject_recursive_types(L)]
#[verifier::reject_recursive_types(B)]
pub struct Tx<T, L, B> where L: Borrow<Link<T, B>> {
    link: L,
    _value: PhantomData<T>,
    _buffer: PhantomData<B>,
}

/// The receiving side of the channel.
///
/// Dropping it closes nothing: closing wakes the producer, which runs code of the
/// scheduler, and a destructor must not run what may unwind.  Call [`Rx::close`].
#[verifier::reject_recursive_types(T)]
#[verifier::reject_recursive_types(L)]
#[verifier::reject_recursive_types(B)]
pub struct Rx<T, L, B> where L: Borrow<Link<T, B>> {
    link: L,
    _value: PhantomData<T>,
    _buffer: PhantomData<B>,
}

impl<T, B> Link<T, B> where B: AsRef<[Slot<T>]> {
    /// Creates a new [`Link`] over `buffer`, with nothing buffered and no endpoint
    /// attached.  A buffer with as many slots as an index field has values, or more, is
    /// refused with [`Fault::BadCapacity`].
    pub fn new(buffer: B) -> (r: Result<Self, Fault>)
        ensures
            r matches Err(fault) ==> fault == Fault::BadCapacity,
    {
        if let Err(fault) = check_capacity(as_slice::<Slot<T>, B>(&buffer).len()) {
            return Err(fault);
        }
        Ok(
            Link {
                buffer,
                bits: AtomicUsize::new(0),
                tx_waker: AtomicWaker::new(),
                rx_waker: AtomicWaker::new(),
                _value: PhantomData,
            },
        )
    }

    /// Destroys the values that were sent and never received, oldest first, and says how
    /// many they were.  This is what tearing the link down comes to; it is refused with
    /// [`Fault::StillAttached`] while the link is open with an endpoint attached.
    pub fn reclaim(&mut self) -> (r: Result<usize, Fault>)
        ensures
            reclaim_answers(r),
            r matches Err(fault) ==> fault == Fault::StillAttached || fault == Fault::BadCapacity
                || fault == Fault::Corrupted,
    {
        let bits = AtomicValue::load(&self.bits);
        let buffer = as_slice::<Slot<T>, B>(&self.buffer);
        Self::reclaim_seen(buffer, bits)
    }

    /// Carries out what [`plan_reclaim`] decides for the word `bits` and the slots
    /// `buffer`.
    fn reclaim_seen(buffer: &[Slot<T>], bits: usize) -> (r: Result<usize, Fault>)
        ensures
            reclaim_told(reclaim_plan(fields(bits), buffer@.len() as usize), r),
    {
        let (first, count) = match plan_reclaim(bits, buffer.len()) {
            Ok(found) => found,
            Err(fault) => {
                return Err(fault);
            },
        };
        let mut index = first;
        let mut destroyed: usize = 0;
        while destroyed < count
            invariant
                reclaim_plan(fields(bits), buffer@.len() as usize) == Ok::<_, Fault>(
                    (first, count),
                ),
                destroyed <= count,
                count > 0 ==> index < buffer@.len(),
            decreases count - destroyed,
        {
            if buffer[index].take().is_none() {
                return Err(Fault::Corrupted);
            }
            index = step(index, buffer.len());
            destroyed += 1;
        }
        Ok(count)
    }
}

impl<T, L, B> Tx<T, L, B> where B: AsRef<[Slot<T>]>, L: Borrow<Link<T, B>> {
    /// Creates a new [`Tx`], the one producer of `link`.  A link that has a producer
    /// already refuses with [`Fault::AlreadyAttached`].
    pub fn new(link: L) -> (r: Result<Self, Fault>)
        ensures
            r matches Err(fault) ==> fault == Fault::AlreadyAttached || fault
                == Fault::UpdateExhausted,
    {
        match borrowed::<Link<T, B>, L>(&link).set_tx() {
            Ok(()) => Ok(Tx { link, _value: PhantomData, _buffer: PhantomData }),
            Err(fault) => Err(fault),
        }
    }

    /// Sends a value if the channel is not full.  A value that is not accepted comes
    /// back unchanged inside the error.
    pub fn send_nowait(&mut self, value: T) -> (r: Result<Result<(), SendErrorNoWait<T>>, Fault>)
        ensures
            send_answers(value, r),
            r matches Ok(Err(rejected)) ==> rejected.value() == value,
            r matches Err(fault) ==> fault == Fault::BadCapacity || fault == Fault::Corrupted
                || fault == Fault::UpdateExhausted,
    {
        borrowed::<Link<T, B>, L>(&self.link).send_nowait(value)
    }

    /// One step of a waiting send: registers `waker` to be woken when the consumer makes
    /// room, then tries to send the value held in `value`.  While the channel is full the
    /// value stays in `value` and the answer is [`Polled::Pending`].
    pub fn poll_send(&mut self, waker: &Waker, value: &mut Option<T>) -> (r: Result<
        Polled<Result<(), SendError<T>>>,
        Fault,
    >)
        requires
            *old(value) is Some,
        ensures
            exists|outcome: Result<Result<(), SendErrorNoWait<T>>, Fault>|
                send_answers(old(value)->0, outcome) && r == #[trigger] send_polled(outcome)
                    && *final(value) == send_kept(outcome),
            r matches Ok(Polled::Pending) ==> *final(value) == *old(value),
            r matches Ok(Polled::Ready(Err(rejected))) ==> Some(rejected.value()) == *old(value),
            !(r matches Ok(Polled::Pending)) ==> *final(value) is None,
    {
        borrowed::<Link<T, B>, L>(&self.link).poll_send(waker, value)
    }

    /// Closes the channel and wakes the consumer.
    pub fn close(&mut self) -> (r: Result<(), Fault>)
        ensures
            r matches Err(fault) ==> fault == Fault::UpdateExhausted,
    {
        borrowed::<Link<T, B>, L>(&self.link).close(false, true)
    }
}

impl<T, L, B> Rx<T, L, B> where B: AsRef<[Slot<T>]>, L: Borrow<Link<T, B>> {
    /// Creates a new [`Rx`], the one consumer of `link`.  A link that has a consumer
    /// already refuses with [`Fault::AlreadyAttached`].
    pub fn new(link: L) -> (r: Result<Self, Fault>)
        ensures
            r matches Err(fault) ==> fault == Fault::AlreadyAttached || fault
                == Fault::UpdateExhausted,
    {
        match borrowed::<Link<T, B>, L>(&link).set_rx() {
            Ok(()) => Ok(Rx { link, _value: PhantomData, _buffer: PhantomData }),
            Err(fault) => Err(fault),
        }
    }

    /// Receives a value if it is ready.
    pub fn recv_nowait(&mut self) -> (r: Result<Result<T, RecvErrorNoWait>, Fault>)
        ensures
            recv_answers(r),
            r matches Err(fault) ==> fault == Fault::BadCapacity || fault == Fault::Corrupted
                || fault == Fault::UpdateExhausted,
    {
        borrowed::<Link<T, B>, L>(&self.link).recv_nowait()
    }

    /// One step of a waiting receive: registers `waker` to be woken when the producer
    /// sends or closes, then tries to receive.  While the channel is empty and open the
    /// answer is [`Polled::Pending`].
    pub fn poll_recv(&mut self, waker: &Waker) -> (r: Result<Polled<Result<T, RecvError>>, Fault>)
        ensures
            exists|outcome: Result<Result<T, RecvErrorNoWait>, Fault>|
                recv_answers(outcome) && r == #[trigger] recv_polled(outcome),
    {
        borrowed::<Link<T, B>, L>(&self.link).poll_recv(waker)
    }

    /// Closes the channel and wakes the producer.
    pub fn close(&mut self) -> (r: Result<(), Fault>)
        ensures
            r matches Err(fault) ==> fault == Fault::UpdateExhausted,
    {
        borrowed::<Link<T, B>, L>(&self.link).close(true, false)
    }
}

impl<T, B> Link<T, B> where B: AsRef<[Slot<T>]> {
    fn poll_recv(&self, waker: &Waker) -> (r: Result<Polled<Result<T, RecvError>>, Fault>)
        ensures
            exists|outcome: Result<Result<T, RecvErrorNoWait>, Fault>|
                recv_answers(outcome) && r == #[trigger] recv_polled(outcome),
    {
        self.rx_waker.register(waker);
        settle_recv(self.recv_nowait())
    }

    fn poll_send(&self, waker: &Waker, value: &mut Option<T>) -> (r: Result<
        Polled<Result<(), SendError<T>>>,
        Fault,
    >)
        requires
            *old(value) is Some,
        ensures
            exists|outcome: Result<Result<(), SendErrorNoWait<T>>, Fault>|
                send_answers(old(value)->0, outcome) && r == #[trigger] send_polled(outcome)
                    && *final(value) == send_kept(outcome),
            r matches Ok(Polled::Pending) ==> *final(value) == *old(value),
            r matches Ok(Polled::Ready(Err(rejected))) ==> Some(rejected.value()) == *old(value),
            !(r matches Ok(Polled::Pending)) ==> *final(value) is None,
    {
        self.tx_waker.register(waker);
        let held = value.take().unwrap();
        let outcome = self.send_nowait(held);
        settle_send(outcome, value)
    }

    fn recv_nowait(&self) -> (r: Result<Result<T, RecvErrorNoWait>, Fault>)
        ensures
            recv_answers(r),
            r matches Err(fault) ==> fault == Fault::BadCapacity || fault == Fault::Corrupted
                || fault == Fault::UpdateExhausted,
    {
        let bits = AtomicValue::load(&self.bits);
        let buffer = as_slice::<Slot<T>, B>(&self.buffer);
        self.recv_seen(buffer, bits)
    }

    /// Carries out what [`plan_recv`] decides for the word `bits` and the slots `buffer`.
    fn recv_seen(&self, buffer: &[Slot<T>], bits: usize) -> (r: Result<
        Result<T, RecvErrorNoWait>,
        Fault,
    >)
        ensures
            recv_told(recv_plan(fields(bits), buffer@.len() as usize), r),
    {
        match plan_recv(bits, buffer.len()) {
            RecvPlan::Closed => Ok(Err(RecvErrorNoWait::Closed)),
            RecvPlan::Empty => Ok(Err(RecvErrorNoWait::Empty)),
            RecvPlan::Fault(fault) => Err(fault),
            RecvPlan::Take { slot, next } => {
                let value = match buffer[slot].take() {
                    Some(value) => value,
                    None => {
                        return Err(Fault::Corrupted);
                    },
                };
                proof {
                    lemma_layout();
                }
                let update = |seen: usize| -> (asked: Result<AtomicUpdate<usize>, Fault>)
                    ensures
                        head_moved(seen, next, asked),
                    { move_head(seen, next) };
                let moved = compare_exchange_loop(
                    &self.bits,
                    self.max_iterations_for_atomic_update(),
                    Some(bits),
                    update,
                );
                match moved {
                    Ok(_) => {
                        self.tx_waker.wake();
                        Ok(Ok(value))
                    },
                    Err(_) => Err(Fault::UpdateExhausted),
                }
            },
        }
    }

    fn send_nowait(&self, value: T) -> (r: Result<Result<(), SendErrorNoWait<T>>, Fault>)
        ensures
            send_answers(value, r),
            r matches Ok(Err(rejected)) ==> rejected.value() == value,
            r matches Err(fault) ==> fault == Fault::BadCapacity || fault == Fault::Corrupted
                || fault == Fault::UpdateExhausted,
    {
        let bits = AtomicValue::load(&self.bits);
        let buffer = as_slice::<Slot<T>, B>(&self.buffer);
        self.send_seen(buffer, bits, value)
    }

    /// Carries out what [`plan_send`] decides for the word `bits` and the slots `buffer`.
    fn send_seen(&self, buffer: &[Slot<T>], bits: usize, value: T) -> (r: Result<
        Result<(), SendErrorNoWait<T>>,
        Fault,
    >)
        ensures
            send_told(send_plan(fields(bits), buffer@.len() as usize), value, r),
    {
        match plan_send(bits, buffer.len()) {
            SendPlan::Closed => Ok(Err(SendErrorNoWait::closed(value))),
            SendPlan::Full => Ok(Err(SendErrorNoWait::full(value))),
            SendPlan::Fault(fault) => Err(fault),
            SendPlan::Write { slot, next } => {
                if buffer[slot].write(value).is_some() {
                    return Err(Fault::Corrupted);
                }
                proof {
                    lemma_layout();
                }
                let update = |seen: usize| -> (asked: Result<AtomicUpdate<usize>, Fault>)
                    ensures
                        tail_moved(seen, next, asked),
                    { move_tail(seen, next) };
                let moved = compare_exchange_loop(
                    &self.bits,
                    self.max_iterations_for_atomic_update(),
                    Some(bits),
                    update,
                );
                match moved {
                    Ok(_) => {
                        self.rx_waker.wake();
                        Ok(Ok(()))
                    },
                    Err(_) => Err(Fault::UpdateExhausted),
                }
            },
        }
    }

    fn close(&self, notify_tx: bool, notify_rx: bool) -> (r: Result<(), Fault>)
        ensures
            r matches Err(fault) ==> fault == Fault::UpdateExhausted,
    {
        let update = |seen: usize| -> (asked: Result<AtomicUpdate<usize>, Fault>)
            ensures
                closed_raised(seen, asked),
            { raise_closed(seen) };
        let raised = compare_exchange_loop(
            &self.bits,
            self.max_iterations_for_atomic_update(),
            None,
            update,
        );
        if let Err(fault) = concluded(raised) {
            return Err(fault);
        }
        if notify_tx {
            self.tx_waker.wake();
        }
        if notify_rx {
            self.rx_waker.wake();
        }
        Ok(())
    }

    fn set_tx(&self) -> (r: Result<(), Fault>)
        ensures
            r matches Err(fault) ==> fault == Fault::AlreadyAttached || fault
                == Fault::UpdateExhausted,
    {
        let update = |seen: usize| -> (asked: Result<AtomicUpdate<usize>, Fault>)
            ensures
                tx_attached(seen, asked),
            { attach_tx(seen) };
        let attached = compare_exchange_loop(
            &self.bits,
            self.max_iterations_for_atomic_update(),
            None,
            update,
        );
        match concluded(attached) {
            Ok(_) => Ok(()),
            Err(fault) => Err(fault),
        }
    }

    fn set_rx(&self) -> (r: Result<(), Fault>)
        ensures
            r matches Err(fault) ==> fault == Fault::AlreadyAttached || fault
                == Fault::UpdateExhausted,
    {
        let update = |seen: usize| -> (asked: Result<AtomicUpdate<usize>, Fault>)
            ensures
                rx_attached(seen, asked),
            { attach_rx(seen) };
        let attached = compare_exchange_loop(
            &self.bits,
            self.max_iterations_for_atomic_update(),
            None,
            update,
        );
        match concluded(attached) {
            Ok(_) => Ok(()),
            Err(fault) => Err(fault),
        }
    }

    fn max_iterations_for_atomic_update(&self) -> (r: usize)
        ensures
            r == ATOMIC_UPDATE_MAX_ITERATIONS,
    {
        ATOMIC_UPDATE_MAX_ITERATIONS
    }
}

} // verus!
