//! What an endpoint of the buffered channel does with the state word it observed.
//!
//! Every function here is a pure function of a state word and the number of slots.  The
//! link reads the word, asks one of these functions, and carries the answer out.

use crate::error::{Fault, RecvErrorNoWait, SendErrorNoWait};
use crate::spsc::buffered::bits::{
    fields, head, is_closed, lemma_layout, max_len, rx_is_set, tail, tx_is_set, Fields, MASK_INDEX,
};
use crate::utils::ring::{distance, next_index, ring_distance, ring_full, step};
use crate::utils::AtomicUpdate;
use vstd::prelude::*;

verus! {

/// What a producer does next.
#[derive(Debug, Clone, Copy, PartialEq, Eq)]
pub enum SendPlan {
    /// Give the value back: the channel is closed.
    Closed,
    /// Give the value back: every usable slot is taken.
    Full,
    /// Write the value into `slot`, then move the tail to `next`.
    Write { slot: usize, next: usize },
    /// Stop: the word or the buffer is not one that the channel can have produced.
    Fault(Fault),
}

/// What a consumer does next.
#[derive(Debug, Clone, Copy, PartialEq, Eq)]
pub enum RecvPlan {
    /// Nothing is buffered and nothing will come: the channel is closed.
    Closed,
    /// Nothing is buffered yet.
    Empty,
    /// Move the value out of `slot`, then move the head to `next`.
    Take { slot: usize, next: usize },
    /// Stop: the word or the buffer is not one that the channel can have produced.
    Fault(Fault),
}

/// A buffer of `len` slots can back a channel: it has a slot, and every index fits its
/// field with one value to spare.
pub open spec fn capacity_ok(len: usize) -> bool {
    0 < len < MASK_INDEX
}

/// The decision of a producer that saw `seen` on a buffer of `len` slots.
pub open spec fn send_plan(seen: Fields, len: usize) -> SendPlan {
    if seen.closed {
        SendPlan::Closed
    } else if !capacity_ok(len) {
        SendPlan::Fault(Fault::BadCapacity)
    } else if seen.head >= len || seen.tail >= len {
        SendPlan::Fault(Fault::Corrupted)
    } else if ring_full(seen.head, seen.tail, len) {
        SendPlan::Full
    } else {
        SendPlan::Write { slot: seen.tail, next: next_index(seen.tail, len) }
    }
}

/// The decision of a consumer that saw `seen` on a buffer of `len` slots.  Closure counts
/// only once the ring is empty: what was sent before it is still delivered.
pub open spec fn recv_plan(seen: Fields, len: usize) -> RecvPlan {
    if seen.head == seen.tail {
        if seen.closed {
            RecvPlan::Closed
        } else {
            RecvPlan::Empty
        }
    } else if !capacity_ok(len) {
        RecvPlan::Fault(Fault::BadCapacity)
    } else if seen.head >= len || seen.tail >= len {
        RecvPlan::Fault(Fault::Corrupted)
    } else {
        RecvPlan::Take { slot: seen.head, next: next_index(seen.head, len) }
    }
}

/// `told` is what a producer that offers `value` is told when it carries out `plan`: a
/// refusal hands the value back, a fault is passed on, and a write ends in acceptance
/// unless the slot or the word turns out not to be the producer's own.
pub open spec fn send_told<T>(
    plan: SendPlan,
    value: T,
    told: Result<Result<(), SendErrorNoWait<T>>, Fault>,
) -> bool {
    match plan {
        SendPlan::Closed => told == Ok::<_, Fault>(Err::<(), _>(SendErrorNoWait::Closed(value))),
        SendPlan::Full => told == Ok::<_, Fault>(Err::<(), _>(SendErrorNoWait::Full(value))),
        SendPlan::Fault(fault) => told == Err::<Result<(), SendErrorNoWait<T>>, _>(fault),
        SendPlan::Write { .. } => told == Ok::<Result<(), SendErrorNoWait<T>>, Fault>(Ok(()))
            || told == Err::<Result<(), SendErrorNoWait<T>>, _>(Fault::UpdateExhausted) || told
            == Err::<Result<(), SendErrorNoWait<T>>, _>(Fault::Corrupted),
    }
}

/// `told` is what a consumer is told when it carries out `plan`: closed or empty as
/// planned, a fault passed on, and a value where one is to be taken unless the slot or the
/// word turns out not to be the consumer's own.
pub open spec fn recv_told<T>(plan: RecvPlan, told: Result<Result<T, RecvErrorNoWait>, Fault>)
    -> bool {
    match plan {
        RecvPlan::Closed => told == Ok::<_, Fault>(Err::<T, _>(RecvErrorNoWait::Closed)),
        RecvPlan::Empty => told == Ok::<_, Fault>(Err::<T, _>(RecvErrorNoWait::Empty)),
        RecvPlan::Fault(fault) => told == Err::<Result<T, RecvErrorNoWait>, _>(fault),
        RecvPlan::Take { .. } => told matches Ok(Ok(_)) || told == Err::<
            Result<T, RecvErrorNoWait>,
            _,
        >(Fault::UpdateExhausted) || told == Err::<Result<T, RecvErrorNoWait>, _>(
            Fault::Corrupted,
        ),
    }
}

/// `told` is what tearing down comes to when it carries out `plan`: the fault of the
/// plan, or the number of values planned for unless a slot among them turns out empty.
pub open spec fn reclaim_told(plan: Result<(usize, usize), Fault>, told: Result<usize, Fault>)
    -> bool {
    match plan {
        Err(fault) => told == Err::<usize, _>(fault),
        Ok((first, count)) => told == Ok::<_, Fault>(count) || told == Err::<usize, _>(
            Fault::Corrupted,
        ),
    }
}

/// `told` is what a producer that offers `value` is told for some state word on some
/// buffer: the word that the link held when it was read, over the slots that it has.
pub open spec fn send_answers<T>(value: T, told: Result<Result<(), SendErrorNoWait<T>>, Fault>)
    -> bool {
    exists|seen: usize, len: usize| #[trigger]
        send_told(send_plan(fields(seen), len), value, told)
}

/// `told` is what a consumer is told for some state word on some buffer.
pub open spec fn recv_answers<T>(told: Result<Result<T, RecvErrorNoWait>, Fault>) -> bool {
    exists|seen: usize, len: usize| #[trigger] recv_told(recv_plan(fields(seen), len), told)
}

/// `told` is what tearing down comes to for some state word on some buffer.
pub open spec fn reclaim_answers(told: Result<usize, Fault>) -> bool {
    exists|seen: usize, len: usize| #[trigger]
        reclaim_told(reclaim_plan(fields(seen), len), told)
}

/// A link takes a buffer of `len` slots exactly when every index fits its field with one
/// value to spare.
pub open spec fn capacity_check(len: usize) -> Result<(), Fault> {
    if len < MASK_INDEX {
        Ok(())
    } else {
        Err(Fault::BadCapacity)
    }
}

/// Decides whether a link takes a buffer of `len` slots.
pub fn check_capacity(len: usize) -> (r: Result<(), Fault>)
    ensures
        r == capacity_check(len),
{
    if len >= max_len() {
        Err(Fault::BadCapacity)
    } else {
        Ok(())
    }
}

/// What tearing the link down has to destroy when the word reads `seen`: the first slot
/// in use and the number of slots in use from there on.  A link that is open with an
/// endpoint attached must not be torn down.
pub open spec fn reclaim_plan(seen: Fields, len: usize) -> Result<(usize, usize), Fault> {
    if !seen.closed && (seen.tx_set || seen.rx_set) {
        Err(Fault::StillAttached)
    } else if seen.head == seen.tail {
        Ok((seen.head, 0))
    } else if !capacity_ok(len) {
        Err(Fault::BadCapacity)
    } else if seen.head >= len || seen.tail >= len {
        Err(Fault::Corrupted)
    } else {
        Ok((seen.head, ring_distance(seen.head, seen.tail, len) as usize))
    }
}

/// Decides what tearing the link down has to destroy, for the word `bits` and a buffer
/// of `len` slots.
pub fn plan_reclaim(bits: usize, len: usize) -> (r: Result<(usize, usize), Fault>)
    ensures
        r == reclaim_plan(fields(bits), len),
        r matches Ok((first, count)) ==> count < len || count == 0,
        r matches Ok((first, count)) ==> count > 0 ==> first < len,
{
    let head = head::get(bits);
    let tail = tail::get(bits);
    if !is_closed::is_set(bits) && (tx_is_set::is_set(bits) || rx_is_set::is_set(bits)) {
        Err(Fault::StillAttached)
    } else if head == tail {
        Ok((head, 0))
    } else if len == 0 || len >= max_len() {
        Err(Fault::BadCapacity)
    } else if head >= len || tail >= len {
        Err(Fault::Corrupted)
    } else {
        Ok((head, distance(head, tail, len)))
    }
}

/// Decides what a producer does that read `bits` from the link of a buffer of `len`
/// slots.
pub fn plan_send(bits: usize, len: usize) -> (r: SendPlan)
    ensures
        r == send_plan(fields(bits), len),
{
    let head = head::get(bits);
    let tail = tail::get(bits);
    if is_closed::is_set(bits) {
        SendPlan::Closed
    } else if len == 0 || len >= max_len() {
        SendPlan::Fault(Fault::BadCapacity)
    } else if head >= len || tail >= len {
        SendPlan::Fault(Fault::Corrupted)
    } else {
        proof {
            lemma_layout();
        }
        let tail_if_full = (head + len - 1) % len;
        if tail == tail_if_full {
            SendPlan::Full
        } else {
            SendPlan::Write { slot: tail, next: step(tail, len) }
        }
    }
}

/// Decides what a consumer does that read `bits` from the link of a buffer of `len`
/// slots.
pub fn plan_recv(bits: usize, len: usize) -> (r: RecvPlan)
    ensures
        r == recv_plan(fields(bits), len),
{
    let head = head::get(bits);
    let tail = tail::get(bits);
    if head == tail {
        if is_closed::is_set(bits) {
            RecvPlan::Closed
        } else {
            RecvPlan::Empty
        }
    } else if len == 0 || len >= max_len() {
        RecvPlan::Fault(Fault::BadCapacity)
    } else if head >= len || tail >= len {
        RecvPlan::Fault(Fault::Corrupted)
    } else {
        RecvPlan::Take { slot: head, next: step(head, len) }
    }
}

/// `asked` is the update that publishes a write: the tail moves to `next`, nothing else
/// changes.
pub open spec fn tail_moved(seen: usize, next: usize, asked: Result<AtomicUpdate<usize>, Fault>)
    -> bool {
    asked matches Ok(AtomicUpdate::Store(new)) && fields(new) == (Fields {
        tail: next,
        ..fields(seen)
    })
}

/// `asked` is the update that hands a slot back: the head moves to `next`, nothing else
/// changes.
pub open spec fn head_moved(seen: usize, next: usize, asked: Result<AtomicUpdate<usize>, Fault>)
    -> bool {
    asked matches Ok(AtomicUpdate::Store(new)) && fields(new) == (Fields {
        head: next,
        ..fields(seen)
    })
}

/// `asked` is the update that closes the channel: the closed flag is raised, nothing
/// else changes.
pub open spec fn closed_raised(seen: usize, asked: Result<AtomicUpdate<usize>, Fault>) -> bool {
    asked matches Ok(AtomicUpdate::Store(new)) && fields(new) == (Fields {
        closed: true,
        ..fields(seen)
    })
}

/// `asked` is the answer to a producer that wants to attach: refused where one is
/// attached already, else the update that marks it present.
pub open spec fn tx_attached(seen: usize, asked: Result<AtomicUpdate<usize>, Fault>) -> bool {
    if fields(seen).tx_set {
        asked == Err::<AtomicUpdate<usize>, Fault>(Fault::AlreadyAttached)
    } else {
        asked matches Ok(AtomicUpdate::Store(new)) && fields(new) == (Fields {
            tx_set: true,
            ..fields(seen)
        })
    }
}

/// `asked` is the answer to a consumer that wants to attach: refused where one is
/// attached already, else the update that marks it present.
pub open spec fn rx_attached(seen: usize, asked: Result<AtomicUpdate<usize>, Fault>) -> bool {
    if fields(seen).rx_set {
        asked == Err::<AtomicUpdate<usize>, Fault>(Fault::AlreadyAttached)
    } else {
        asked matches Ok(AtomicUpdate::Store(new)) && fields(new) == (Fields {
            rx_set: true,
            ..fields(seen)
        })
    }
}

/// The update that moves the tail of `bits` to `next`.
pub fn move_tail(bits: usize, next: usize) -> (r: Result<AtomicUpdate<usize>, Fault>)
    requires
        next <= MASK_INDEX,
    ensures
        tail_moved(bits, next, r),
{
    Ok(AtomicUpdate::Store(tail::set(bits, next)))
}

/// The update that moves the head of `bits` to `next`.
pub fn move_head(bits: usize, next: usize) -> (r: Result<AtomicUpdate<usize>, Fault>)
    requires
        next <= MASK_INDEX,
    ensures
        head_moved(bits, next, r),
{
    Ok(AtomicUpdate::Store(head::set(bits, next)))
}

/// The update that closes the channel.
pub fn raise_closed(bits: usize) -> (r: Result<AtomicUpdate<usize>, Fault>)
    ensures
        closed_raised(bits, r),
{
    Ok(AtomicUpdate::Store(is_closed::set(bits)))
}

/// Answers a producer that wants to attach to a link whose word reads `bits`.
pub fn attach_tx(bits: usize) -> (r: Result<AtomicUpdate<usize>, Fault>)
    ensures
        tx_attached(bits, r),
{
    if tx_is_set::is_set(bits) {
        Err(Fault::AlreadyAttached)
    } else {
        Ok(AtomicUpdate::Store(tx_is_set::set(bits)))
    }
}

/// Answers a consumer that wants to attach to a link whose word reads `bits`.
pub fn attach_rx(bits: usize) -> (r: Result<AtomicUpdate<usize>, Fault>)
    ensures
        rx_attached(bits, r),
{
    if rx_is_set::is_set(bits) {
        Err(Fault::AlreadyAttached)
    } else {
        Ok(AtomicUpdate::Store(rx_is_set::set(bits)))
    }
}

} // verus!
