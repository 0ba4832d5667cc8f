//! Multiple producers multiple consumers buffered channel.
//!
//! The link keeps the closed flag and four ring indices in one atomic word.  Each end of
//! the ring has an index at which slots are claimed and one at which they are released,
//! so that several producers can write their slots at the same time, and several
//! consumers empty theirs, while the word still tells at every moment which slots hold a
//! published value.

use crate::error::{Fault, RecvError, RecvErrorNoWait, SendError, SendErrorNoWait};
use crate::mpmc::bits::{fields, head_taken, lemma_layout, tail_taken};
use crate::mpmc::ring::{
    capacity_ok, check_capacity, closed_raised, commit_head, commit_tail, head_claim,
    head_committed, head_reserved, plan_reclaim, raise_closed, reclaim_answers, reclaim_plan,
    reclaim_told, recv_answers, recv_reserved_told, recv_told, reserve_head, reserve_tail,
    send_answers, send_reserved_told, send_told, tail_claim, tail_committed, tail_reserved,
    RecvRefusal, SendRefusal,
};
use crate::mpmc::seats::wake_all;
use crate::poll::{recv_polled, send_kept, send_polled, settle_recv, settle_send, Polled};
use crate::slot::Slot;
use crate::utils::ring::{lemma_next_index, step, step_back};
use crate::utils::{
    as_slice, borrowed, compare_exchange_loop, concluded, AtomicUpdate, AtomicValue,
    ATOMIC_TURN_MAX_ITERATIONS, ATOMIC_UPDATE_MAX_ITERATIONS,
};
use core::borrow::Borrow;
use core::marker::PhantomData;
use core::sync::atomic::{AtomicBool, AtomicUsize};
use core::task::Waker;
use futures::task::AtomicWaker;
use vstd::prelude::*;

pub mod bits;
pub mod model;
pub mod ring;
pub mod seats;

verus! {

/// A medium through which [`Rx`] and [`Tx`] communicate.
#[verifier::reject_recursive_types(T)]
#[verifier::reject_recursive_types(B)]
#[verifier::reject_recursive_types(TW)]
#[verifier::reject_recursive_types(RW)]
pub struct Link<T, B, TW, RW> {
    _value: PhantomData<T>,
    buffer: B,
    refs: AtomicUsize,
    /// 1bit closed flag [0]
    /// four indexes (15/7bit):
    /// - head-taken     [ 1..=15 / 1..=7  ]
    /// - head-available [16..=30 / 8..=14 ]
    /// - tail-taken     [31..=45 / 15..=21]
    /// - tail-available [46..=60 / 22..=28]
    ///
    /// for 64bit usize max capacity — 32768-1
    /// for 32bit usize max capacity - 128-1
    bits: AtomicUsize,
    tx_wakers: TW,
    rx_wakers: RW,
}

/// The sending side of the channel.
///
/// Dropping it keeps its seat occupied.  Call [`Tx::detach`] to give the seat back.
#[verifier::reject_recursive_types(T)]
#[verifier::reject_recursive_types(L)]
#[verifier::reject_recursive_types(B)]
#[verifier::reject_recursive_types(TW)]
#[verifier::reject_recursive_types(RW)]
pub struct Tx<T, L, B, TW, RW> where L: Borrow<Link<T, B, TW, RW>> {
    _value: PhantomData<T>,
    _buffer: PhantomData<B>,
    _tx_wakers: PhantomData<TW>,
    _rx_waker: PhantomData<RW>,
    link: L,
    idx: usize,
}

/// The receiving side of the channel.
///
/// Dropping it keeps its seat occupied.  Call [`Rx::detach`] to give the seat back.
#[verifier::reject_recursive_types(T)]
#[verifier::reject_recursive_types(L)]
#[verifier::reject_recursive_types(B)]
#[verifier::reject_recursive_types(TW)]
#[verifier::reject_recursive_types(RW)]
pub struct Rx<T, L, B, TW, RW> where L: Borrow<Link<T, B, TW, RW>> {
    _value: PhantomData<T>,
    _buffer: PhantomData<B>,
    _tx_wakers: PhantomData<TW>,
    _rx_waker: PhantomData<RW>,
    link: L,
    idx: usize,
}

impl<T, L, B, TW, RW> Tx<T, L, B, TW, RW> where
    L: Borrow<Link<T, B, TW, RW>>,
    B: AsRef<[Slot<T>]>,
    TW: AsRef<[(AtomicBool, AtomicWaker)]>,
    RW: AsRef<[(AtomicBool, AtomicWaker)]>,
 {
    /// Creates a new [`Tx`] on the first free producer seat of `link`.  With every seat
    /// occupied the link refuses with [`Fault::SeatsExhausted`].
    pub fn new(link: L) -> (r: Result<Self, Fault>)
        ensures
            r matches Err(fault) ==> fault == Fault::SeatsExhausted || fault == Fault::RefCount,
    {
        match borrowed::<Link<T, B, TW, RW>, L>(&link).attach_tx() {
            Ok(idx) => Ok(
                Tx {
                    _value: PhantomData,
                    _buffer: PhantomData,
                    _tx_wakers: PhantomData,
                    _rx_waker: PhantomData,
                    link,
                    idx,
                },
            ),
            Err(fault) => Err(fault),
        }
    }

    /// Sends a value if the channel is not full.  A value that is not accepted comes
    /// back unchanged inside the error.
    pub fn send_nowait(&mut self, value: T) -> (r: Result<Result<(), SendErrorNoWait<T>>, Fault>)
        ensures
            send_answers(value, r),
            r matches Ok(Err(rejected)) ==> rejected.value() == value,
            r matches Err(fault) ==> fault == Fault::BadCapacity || fault == Fault::Corrupted
                || fault == Fault::UpdateExhausted,
    {
        borrowed::<Link<T, B, TW, RW>, L>(&self.link).send_nowait(value)
    }

    /// One step of a waiting send: registers `waker` at this endpoint's seat, then tries to
    /// send the value held in `value`.  While the channel is full the value stays in
    /// `value` and the answer is [`Polled::Pending`].
    pub fn poll_send(&mut self, waker: &Waker, value: &mut Option<T>) -> (r: Result<
        Polled<Result<(), SendError<T>>>,
        Fault,
    >)
        requires
            *old(value) is Some,
        ensures
            (r == Err::<Polled<Result<(), SendError<T>>>, _>(Fault::SeatNotOccupied) && *final(value)
                == *old(value)) || exists|outcome: Result<Result<(), SendErrorNoWait<T>>, Fault>|
                send_answers(old(value)->0, outcome) && r == #[trigger] send_polled(outcome)
                    && *final(value) == send_kept(outcome),
            r matches Ok(Polled::Pending) ==> *final(value) == *old(value),
            r matches Ok(Polled::Ready(Err(rejected))) ==> Some(rejected.value()) == *old(value),
    {
        borrowed::<Link<T, B, TW, RW>, L>(&self.link).poll_send(waker, self.idx, value)
    }

    /// Closes the channel and wakes every seat on both sides.
    pub fn close(&mut self) -> (r: Result<(), Fault>)
        ensures
            r matches Err(fault) ==> fault == Fault::UpdateExhausted,
    {
        borrowed::<Link<T, B, TW, RW>, L>(&self.link).close()
    }

    /// Gives the seat back.  The channel stays open for the other endpoints.
    pub fn detach(self) -> (r: Result<(), Fault>)
        ensures
            r matches Err(fault) ==> fault == Fault::SeatNotOccupied || fault == Fault::RefCount,
    {
        borrowed::<Link<T, B, TW, RW>, L>(&self.link).detach_tx(self.idx)
    }
}

impl<T, L, B, TW, RW> Rx<T, L, B, TW, RW> where
    L: Borrow<Link<T, B, TW, RW>>,
    B: AsRef<[Slot<T>]>,
    TW: AsRef<[(AtomicBool, AtomicWaker)]>,
    RW: AsRef<[(AtomicBool, AtomicWaker)]>,
 {
    /// Creates a new [`Rx`] on the first free consumer seat of `link`.  With every seat
    /// occupied the link refuses with [`Fault::SeatsExhausted`].
    pub fn new(link: L) -> (r: Result<Self, Fault>)
        ensures
            r matches Err(fault) ==> fault == Fault::SeatsExhausted || fault == Fault::RefCount,
    {
        match borrowed::<Link<T, B, TW, RW>, L>(&link).attach_rx() {
            Ok(idx) => Ok(
                Rx {
                    _value: PhantomData,
                    _buffer: PhantomData,
                    _tx_wakers: PhantomData,
                    _rx_waker: PhantomData,
                    link,
                    idx,
                },
            ),
            Err(fault) => Err(fault),
        }
    }

    /// Receives a value if it is ready.
    pub fn recv_nowait(&mut self) -> (r: Result<Result<T, RecvErrorNoWait>, Fault>)
        ensures
            recv_answers(r),
            r matches Err(fault) ==> fault == Fault::BadCapacity || fault == Fault::Corrupted
                || fault == Fault::UpdateExhausted,
    {
        borrowed::<Link<T, B, TW, RW>, L>(&self.link).recv_nowait()
    }

    /// One step of a waiting receive: registers `waker` at this endpoint's seat, then tries
    /// to receive.  While nothing is published and the channel is open the answer is
    /// [`Polled::Pending`].
    pub fn poll_recv(&mut self, waker: &Waker) -> (r: Result<Polled<Result<T, RecvError>>, Fault>)
        ensures
            r == Err::<Polled<Result<T, RecvError>>, _>(Fault::SeatNotOccupied) || exists|
                outcome: Result<Result<T, RecvErrorNoWait>, Fault>,
            | recv_answers(outcome) && r == #[trigger] recv_polled(outcome),
    {
        borrowed::<Link<T, B, TW, RW>, L>(&self.link).poll_recv(waker, self.idx)
    }

    /// Closes the channel and wakes every seat on both sides.
    pub fn close(&mut self) -> (r: Result<(), Fault>)
        ensures
            r matches Err(fault) ==> fault == Fault::UpdateExhausted,
    {
        borrowed::<Link<T, B, TW, RW>, L>(&self.link).close()
    }

    /// Gives the seat back.  The channel stays open for the other endpoints.
    pub fn detach(self) -> (r: Result<(), Fault>)
        ensures
            r matches Err(fault) ==> fault == Fault::SeatNotOccupied || fault == Fault::RefCount,
    {
        borrowed::<Link<T, B, TW, RW>, L>(&self.link).detach_rx(self.idx)
    }
}

impl<T, B, TW, RW> Link<T, B, TW, RW> where
    B: AsRef<[Slot<T>]>,
    TW: AsRef<[(AtomicBool, AtomicWaker)]>,
    RW: AsRef<[(AtomicBool, AtomicWaker)]>,
 {
    /// Creates a new [`Link`] over `buffer`, with nothing buffered and every seat of the
    /// two tables free.  A buffer with as many slots as an index field has values, or
    /// more, is refused with [`Fault::BadCapacity`].
    pub fn new(buffer: B, tx_wakers: TW, rx_wakers: RW) -> (r: Result<Self, Fault>)
        ensures
            r matches Err(fault) ==> fault == Fault::BadCapacity,
    {
        if let Err(fault) = check_capacity(as_slice::<Slot<T>, B>(&buffer).len()) {
            return Err(fault);
        }
        Ok(
            Link {
                _value: PhantomData,
                buffer,
                refs: AtomicUsize::new(0),
                bits: AtomicUsize::new(0),
                tx_wakers,
                rx_wakers,
            },
        )
    }

    /// Destroys the values that were sent and never received, oldest first, and says how
    /// many they were.  This is what tearing the link down comes to; it is refused with
    /// [`Fault::StillAttached`] while an endpoint is attached.
    pub fn reclaim(&mut self) -> (r: Result<usize, Fault>)
        ensures
            reclaim_answers(r),
            r matches Err(fault) ==> fault == Fault::StillAttached || fault == Fault::BadCapacity
                || fault == Fault::Corrupted,
    {
        let refs = self.references();
        let bits = AtomicValue::load(&self.bits);
        let buffer = as_slice::<Slot<T>, B>(&self.buffer);
        Self::reclaim_seen(buffer, bits, refs)
    }

    /// Carries out what [`plan_reclaim`] decides for `refs` attached endpoints, the word
    /// `bits` and the slots `buffer`.
    fn reclaim_seen(buffer: &[Slot<T>], bits: usize, refs: usize) -> (r: Result<usize, Fault>)
        ensures
            reclaim_told(reclaim_plan(fields(bits), refs, buffer@.len() as usize), r),
    {
        let (first, count) = match plan_reclaim(bits, refs, buffer.len()) {
            Ok(found) => found,
            Err(fault) => {
                return Err(fault);
            },
        };
        let mut index = first;
        let mut destroyed: usize = 0;
        while destroyed < count
            invariant
                reclaim_plan(fields(bits), refs, buffer@.len() as usize) == Ok::<_, Fault>(
                    (first, count),
                ),
                destroyed <= count,
                count > 0 ==> index < buffer@.len(),
            decreases count - destroyed,
        {
            if buffer[index].take().is_none() {
                return Err(Fault::Corrupted);
            }
            index = step(index, buffer.len());
            destroyed += 1;
        }
        Ok(count)
    }
}

impl<T, B, TW, RW> Link<T, B, TW, RW> where
    B: AsRef<[Slot<T>]>,
    TW: AsRef<[(AtomicBool, AtomicWaker)]>,
    RW: AsRef<[(AtomicBool, AtomicWaker)]>,
 {
    fn poll_recv(&self, waker: &Waker, idx: usize) -> (r: Result<
        Polled<Result<T, RecvError>>,
        Fault,
    >)
        ensures
            r == Err::<Polled<Result<T, RecvError>>, _>(Fault::SeatNotOccupied) || exists|
                outcome: Result<Result<T, RecvErrorNoWait>, Fault>,
            | recv_answers(outcome) && r == #[trigger] recv_polled(outcome),
    {
        let seats = as_slice::<(AtomicBool, AtomicWaker), RW>(&self.rx_wakers);
        if idx >= seats.len() {
            return Err(Fault::SeatNotOccupied);
        }
        seats[idx].1.register(waker);
        settle_recv(self.recv_nowait())
    }

    fn poll_send(&self, waker: &Waker, idx: usize, value: &mut Option<T>) -> (r: Result<
        Polled<Result<(), SendError<T>>>,
        Fault,
    >)
        requires
            *old(value) is Some,
        ensures
            (r == Err::<Polled<Result<(), SendError<T>>>, _>(Fault::SeatNotOccupied) && *final(value)
                == *old(value)) || exists|outcome: Result<Result<(), SendErrorNoWait<T>>, Fault>|
                send_answers(old(value)->0, outcome) && r == #[trigger] send_polled(outcome)
                    && *final(value) == send_kept(outcome),
            r matches Ok(Polled::Pending) ==> *final(value) == *old(value),
            r matches Ok(Polled::Ready(Err(rejected))) ==> Some(rejected.value()) == *old(value),
    {
        let seats = as_slice::<(AtomicBool, AtomicWaker), TW>(&self.tx_wakers);
        if idx >= seats.len() {
            return Err(Fault::SeatNotOccupied);
        }
        seats[idx].1.register(waker);
        let held = value.take().unwrap();
        let outcome = self.send_nowait(held);
        settle_send(outcome, value)
    }

    fn send_nowait(&self, value: T) -> (r: Result<Result<(), SendErrorNoWait<T>>, Fault>)
        ensures
            send_answers(value, r),
            r matches Ok(Err(rejected)) ==> rejected.value() == value,
            r matches Err(fault) ==> fault == Fault::BadCapacity || fault == Fault::Corrupted
                || fault == Fault::UpdateExhausted,
    {
        let buffer = as_slice::<Slot<T>, B>(&self.buffer);
        let buffer_len = buffer.len();

        let reserve = |seen: usize| -> (asked: Result<AtomicUpdate<usize>, SendRefusal>)
            ensures
                tail_reserved(seen, buffer_len, asked),
            { reserve_tail(seen, buffer_len) };
        let reserved = compare_exchange_loop(
            &self.bits,
            self.update_max_iterations(),
            None,
            reserve,
        );
        let ghost answered = reserved;
        let ghost seen = match answered {
            Ok(claimed) => choose|seen: usize| #[trigger]
                reserve.ensures((seen,), Ok(AtomicUpdate::Store(claimed))),
            Err(Some(refusal)) => choose|seen: usize| #[trigger]
                reserve.ensures((seen,), Err(refusal)),
            Err(None) => 0,
        };
        proof {
            match answered {
                Ok(claimed) => {
                    assert(tail_reserved(seen, buffer_len, Ok(AtomicUpdate::Store(claimed))));
                    lemma_next_index(fields(seen).tail_taken, buffer_len);
                },
                Err(Some(refusal)) => {
                    assert(tail_reserved(seen, buffer_len, Err(refusal)));
                },
                Err(None) => {},
            }
        }
        let told = self.send_reserved(buffer, reserved, value);
        proof {
            if answered is Ok || answered->Err_0 is Some {
                assert(send_told(tail_claim(fields(seen), buffer_len), value, told));
            }
        }
        told
    }

    /// Carries out a send whose request for a slot came to `reserved`: hands the value
    /// back where the request was refused, and else writes the claimed slot, publishes it
    /// when its turn has come and wakes the consumers.
    fn send_reserved(
        &self,
        buffer: &[Slot<T>],
        reserved: Result<usize, Option<SendRefusal>>,
        value: T,
    ) -> (r: Result<Result<(), SendErrorNoWait<T>>, Fault>)
        requires
            reserved matches Ok(claimed) ==> capacity_ok(buffer@.len() as usize) && fields(
                claimed,
            ).tail_taken < buffer@.len(),
        ensures
            send_reserved_told(reserved, value, r),
    {
        let tail_next = match reserved {
            Ok(claimed) => tail_taken(claimed),
            Err(None) => {
                return Err(Fault::UpdateExhausted);
            },
            Err(Some(SendRefusal::Closed)) => {
                return Ok(Err(SendErrorNoWait::closed(value)));
            },
            Err(Some(SendRefusal::Full)) => {
                return Ok(Err(SendErrorNoWait::full(value)));
            },
            Err(Some(SendRefusal::Fault(fault))) => {
                return Err(fault);
            },
        };
        let tail_this = step_back(tail_next, buffer.len());

        if buffer[tail_this].write(value).is_some() {
            return Err(Fault::Corrupted);
        }
        proof {
            lemma_layout();
        }
        let commit = |seen: usize| -> (asked: Result<AtomicUpdate<usize>, Fault>)
            ensures
                tail_committed(seen, tail_this, tail_next, asked),
            { commit_tail(seen, tail_this, tail_next) };
        let committed = compare_exchange_loop(
            &self.bits,
            self.turn_max_iterations(),
            None,
            commit,
        );
        if let Err(fault) = concluded(committed) {
            return Err(fault);
        }
        wake_all(as_slice::<(AtomicBool, AtomicWaker), RW>(&self.rx_wakers));

        Ok(Ok(()))
    }

    fn recv_nowait(&self) -> (r: Result<Result<T, RecvErrorNoWait>, Fault>)
        ensures
            recv_answers(r),
            r matches Err(fault) ==> fault == Fault::BadCapacity || fault == Fault::Corrupted
                || fault == Fault::UpdateExhausted,
    {
        let buffer = as_slice::<Slot<T>, B>(&self.buffer);
        let buffer_len = buffer.len();

        let reserve = |seen: usize| -> (asked: Result<AtomicUpdate<usize>, RecvRefusal>)
            ensures
                head_reserved(seen, buffer_len, asked),
            { reserve_head(seen, buffer_len) };
        let reserved = compare_exchange_loop(
            &self.bits,
            self.update_max_iterations(),
            None,
            reserve,
        );
        let ghost answered = reserved;
        let ghost seen = match answered {
            Ok(claimed) => choose|seen: usize| #[trigger]
                reserve.ensures((seen,), Ok(AtomicUpdate::Store(claimed))),
            Err(Some(refusal)) => choose|seen: usize| #[trigger]
                reserve.ensures((seen,), Err(refusal)),
            Err(None) => 0,
        };
        proof {
            match answered {
                Ok(claimed) => {
                    assert(head_reserved(seen, buffer_len, Ok(AtomicUpdate::Store(claimed))));
                    lemma_next_index(fields(seen).head_taken, buffer_len);
                },
                Err(Some(refusal)) => {
                    assert(head_reserved(seen, buffer_len, Err(refusal)));
                },
                Err(None) => {},
            }
        }
        let told = self.recv_reserved(buffer, reserved);
        proof {
            if answered is Ok || answered->Err_0 is Some {
                assert(recv_told(head_claim(fields(seen), buffer_len), told));
            }
        }
        told
    }

    /// Carries out a receive whose request for a slot came to `reserved`: reports closed
    /// or empty where the request was refused, and else empties the claimed slot, hands it
    /// back when its turn has come and wakes the producers.
    fn recv_reserved(&self, buffer: &[Slot<T>], reserved: Result<usize, Option<RecvRefusal>>) -> (r:
        Result<Result<T, RecvErrorNoWait>, Fault>)
        requires
            reserved matches Ok(claimed) ==> capacity_ok(buffer@.len() as usize) && fields(
                claimed,
            ).head_taken < buffer@.len(),
        ensures
            recv_reserved_told(reserved, r),
    {
        let head_next = match reserved {
            Ok(claimed) => head_taken(claimed),
            Err(None) => {
                return Err(Fault::UpdateExhausted);
            },
            Err(Some(RecvRefusal::Closed)) => {
                return Ok(Err(RecvErrorNoWait::closed()));
            },
            Err(Some(RecvRefusal::Empty)) => {
                return Ok(Err(RecvErrorNoWait::empty()));
            },
            Err(Some(RecvRefusal::Fault(fault))) => {
                return Err(fault);
            },
        };
        let head_this = step_back(head_next, buffer.len());

        let value = match buffer[head_this].take() {
            Some(value) => value,
            None => {
                return Err(Fault::Corrupted);
            },
        };
        proof {
            lemma_layout();
        }
        let commit = |seen: usize| -> (asked: Result<AtomicUpdate<usize>, Fault>)
            ensures
                head_committed(seen, head_this, head_next, asked),
            { commit_head(seen, head_this, head_next) };
        let committed = compare_exchange_loop(
            &self.bits,
            self.turn_max_iterations(),
            None,
            commit,
        );
        if let Err(fault) = concluded(committed) {
            return Err(fault);
        }
        wake_all(as_slice::<(AtomicBool, AtomicWaker), TW>(&self.tx_wakers));

        Ok(Ok(value))
    }

    fn close(&self) -> (r: Result<(), Fault>)
        ensures
            r matches Err(fault) ==> fault == Fault::UpdateExhausted,
    {
        let update = |seen: usize| -> (asked: Result<AtomicUpdate<usize>, Fault>)
            ensures
                closed_raised(seen, asked),
            { raise_closed(seen) };
        let raised = compare_exchange_loop(
            &self.bits,
            self.update_max_iterations(),
            None,
            update,
        );
        if let Err(fault) = concluded(raised) {
            return Err(fault);
        }
        wake_all(as_slice::<(AtomicBool, AtomicWaker), TW>(&self.tx_wakers));
        wake_all(as_slice::<(AtomicBool, AtomicWaker), RW>(&self.rx_wakers));
        Ok(())
    }

    fn update_max_iterations(&self) -> (r: usize)
        ensures
            r == ATOMIC_UPDATE_MAX_ITERATIONS,
    {
        ATOMIC_UPDATE_MAX_ITERATIONS
    }

    fn turn_max_iterations(&self) -> (r: usize)
        ensures
            r == ATOMIC_TURN_MAX_ITERATIONS,
    {
        ATOMIC_TURN_MAX_ITERATIONS
    }
}

} // verus!
