//! What an endpoint of the multi-producer/multi-consumer channel does with the state
//! word it observed.
//!
//! A send is two updates of the word with the write of the slot between them: the
//! producer first claims the slot at tail-taken, and publishes it at tail-avail once every
//! earlier claim has been published.  A receive mirrors this on the head side.

use crate::error::{Fault, RecvErrorNoWait, SendErrorNoWait};
use crate::mpmc::bits::{
    fields, head_avail, head_taken, is_closed, lemma_layout, max_len, set_closed, set_head_avail,
    set_head_taken, set_tail_avail, set_tail_taken, tail_avail, tail_taken, Fields, MASK_INDEX,
};
use crate::utils::ring::{distance, next_index, ring_distance, ring_full, step};
use crate::utils::AtomicUpdate;
use vstd::prelude::*;

verus! {

/// Why a producer gets no slot.
#[derive(Debug, Clone, Copy, PartialEq, Eq)]
pub enum SendRefusal {
    /// The channel is closed.
    Closed,
    /// Every usable slot is claimed.
    Full,
    /// The word or the buffer is not one that the channel can have produced.
    Fault(Fault),
}

/// Why a consumer gets no slot.
#[derive(Debug, Clone, Copy, PartialEq, Eq)]
pub enum RecvRefusal {
    /// Nothing is published and nothing will come: the channel is closed.
    Closed,
    /// Nothing is published yet.
    Empty,
    /// The word or the buffer is not one that the channel can have produced.
    Fault(Fault),
}

/// A buffer of `len` slots can back a channel: it has a slot, and every index fits its
/// field with one value to spare.
pub open spec fn capacity_ok(len: usize) -> bool {
    0 < len < MASK_INDEX
}

/// What a producer that wants a slot is told when the word reads `seen`: a refusal, or
/// the word with the slot at tail-taken claimed, that is with tail-taken one step on.
pub open spec fn tail_claim(seen: Fields, len: usize) -> Result<Fields, SendRefusal> {
    if seen.closed {
        Err(SendRefusal::Closed)
    } else if !capacity_ok(len) {
        Err(SendRefusal::Fault(Fault::BadCapacity))
    } else if seen.head_avail >= len || seen.tail_taken >= len {
        Err(SendRefusal::Fault(Fault::Corrupted))
    } else if ring_full(seen.head_avail, seen.tail_taken, len) {
        Err(SendRefusal::Full)
    } else {
        Ok(Fields { tail_taken: next_index(seen.tail_taken, len), ..seen })
    }
}

/// What a consumer that wants a slot is told when the word reads `seen`: a refusal, or
/// the word with the slot at head-taken claimed, that is with head-taken one step on.
/// Closure counts only once nothing published is left.
pub open spec fn head_claim(seen: Fields, len: usize) -> Result<Fields, RecvRefusal> {
    if seen.tail_avail == seen.head_taken {
        if seen.closed {
            Err(RecvRefusal::Closed)
        } else {
            Err(RecvRefusal::Empty)
        }
    } else if !capacity_ok(len) {
        Err(RecvRefusal::Fault(Fault::BadCapacity))
    } else if seen.head_taken >= len {
        Err(RecvRefusal::Fault(Fault::Corrupted))
    } else {
        Ok(Fields { head_taken: next_index(seen.head_taken, len), ..seen })
    }
}

/// What the producer that claimed slot `this` is told when the word reads `seen`: nothing
/// yet while earlier claims are unpublished, else the word with the slot published, that
/// is with tail-avail at `next`.
pub open spec fn tail_publish(seen: Fields, this: usize, next: usize) -> Option<Fields> {
    if seen.tail_avail == this {
        Some(Fields { tail_avail: next, ..seen })
    } else {
        None
    }
}

/// What the consumer that claimed slot `this` is told when the word reads `seen`: nothing
/// yet while earlier claims are not handed back, else the word with the slot handed back,
/// that is with head-avail at `next`.
pub open spec fn head_release(seen: Fields, this: usize, next: usize) -> Option<Fields> {
    if seen.head_avail == this {
        Some(Fields { head_avail: next, ..seen })
    } else {
        None
    }
}

/// `asked` answers a producer that wants a slot and saw `seen` as [`tail_claim`] says:
/// with the refusal, or with a word to store that reads as the claim.
pub open spec fn tail_reserved(
    seen: usize,
    len: usize,
    asked: Result<AtomicUpdate<usize>, SendRefusal>,
) -> bool {
    match tail_claim(fields(seen), len) {
        Err(refusal) => asked == Err::<AtomicUpdate<usize>, _>(refusal),
        Ok(claimed) => asked matches Ok(AtomicUpdate::Store(new)) && fields(new) == claimed,
    }
}

/// `asked` answers a consumer that wants a slot and saw `seen` as [`head_claim`] says:
/// with the refusal, or with a word to store that reads as the claim.
pub open spec fn head_reserved(
    seen: usize,
    len: usize,
    asked: Result<AtomicUpdate<usize>, RecvRefusal>,
) -> bool {
    match head_claim(fields(seen), len) {
        Err(refusal) => asked == Err::<AtomicUpdate<usize>, _>(refusal),
        Ok(claimed) => asked matches Ok(AtomicUpdate::Store(new)) && fields(new) == claimed,
    }
}

/// `asked` answers the producer that claimed slot `this` and saw `seen` as
/// [`tail_publish`] says: with a retry, or with a word to store that reads as published.
pub open spec fn tail_committed(
    seen: usize,
    this: usize,
    next: usize,
    asked: Result<AtomicUpdate<usize>, Fault>,
) -> bool {
    match tail_publish(fields(seen), this, next) {
        None => asked is Ok && asked->Ok_0 is Retry,
        Some(published) => asked matches Ok(AtomicUpdate::Store(new)) && fields(new)
            == published,
    }
}

/// `asked` answers the consumer that claimed slot `this` and saw `seen` as
/// [`head_release`] says: with a retry, or with a word to store that reads as handed
/// back.
pub open spec fn head_committed(
    seen: usize,
    this: usize,
    next: usize,
    asked: Result<AtomicUpdate<usize>, Fault>,
) -> bool {
    match head_release(fields(seen), this, next) {
        None => asked is Ok && asked->Ok_0 is Retry,
        Some(released) => asked matches Ok(AtomicUpdate::Store(new)) && fields(new)
            == released,
    }
}

/// `asked` is the update that closes the channel: the closed flag is raised, nothing
/// else changes.
pub open spec fn closed_raised(seen: usize, asked: Result<AtomicUpdate<usize>, Fault>) -> bool {
    asked matches Ok(AtomicUpdate::Store(new)) && fields(new) == (Fields {
        closed: true,
        ..fields(seen)
    })
}

/// `told` is what a producer that offers `value` is told for the answer `claim` to its
/// request for a slot: a refusal hands the value back, a fault is passed on, and a claim
/// ends in acceptance unless the slot or the word turns out not to be the producer's own.
pub open spec fn send_told<T>(
    claim: Result<Fields, SendRefusal>,
    value: T,
    told: Result<Result<(), SendErrorNoWait<T>>, Fault>,
) -> bool {
    match claim {
        Err(SendRefusal::Closed) => told == Ok::<_, Fault>(
            Err::<(), _>(SendErrorNoWait::Closed(value)),
        ),
        Err(SendRefusal::Full) => told == Ok::<_, Fault>(
            Err::<(), _>(SendErrorNoWait::Full(value)),
        ),
        Err(SendRefusal::Fault(fault)) => told == Err::<Result<(), SendErrorNoWait<T>>, _>(fault),
        Ok(_) => told == Ok::<Result<(), SendErrorNoWait<T>>, Fault>(Ok(())) || told == Err::<
            Result<(), SendErrorNoWait<T>>,
            _,
        >(Fault::UpdateExhausted) || told == Err::<Result<(), SendErrorNoWait<T>>, _>(
            Fault::Corrupted,
        ),
    }
}

/// `told` is what a consumer is told for the answer `claim` to its request for a slot:
/// closed or empty as answered, a fault passed on, and a value for a claim unless the slot
/// or the word turns out not to be the consumer's own.
pub open spec fn recv_told<T>(
    claim: Result<Fields, RecvRefusal>,
    told: Result<Result<T, RecvErrorNoWait>, Fault>,
) -> bool {
    match claim {
        Err(RecvRefusal::Closed) => told == Ok::<_, Fault>(Err::<T, _>(RecvErrorNoWait::Closed)),
        Err(RecvRefusal::Empty) => told == Ok::<_, Fault>(Err::<T, _>(RecvErrorNoWait::Empty)),
        Err(RecvRefusal::Fault(fault)) => told == Err::<Result<T, RecvErrorNoWait>, _>(fault),
        Ok(_) => told matches Ok(Ok(_)) || told == Err::<Result<T, RecvErrorNoWait>, _>(
            Fault::UpdateExhausted,
        ) || told == Err::<Result<T, RecvErrorNoWait>, _>(Fault::Corrupted),
    }
}

/// `told` is what tearing down comes to when it carries out `plan`: the fault of the
/// plan, or the number of values planned for unless a slot among them turns out empty.
pub open spec fn reclaim_told(plan: Result<(usize, usize), Fault>, told: Result<usize, Fault>)
    -> bool {
    match plan {
        Err(fault) => told == Err::<usize, _>(fault),
        Ok((first, count)) => told == Ok::<_, Fault>(count) || told == Err::<usize, _>(
            Fault::Corrupted,
        ),
    }
}

/// `told` is what a producer that offers `value` is told when its request for a slot
/// came to `reserved`: the word that was stored with the claim, a refusal, or nothing
/// where the request ran out of rounds.
pub open spec fn send_reserved_told<T>(
    reserved: Result<usize, Option<SendRefusal>>,
    value: T,
    told: Result<Result<(), SendErrorNoWait<T>>, Fault>,
) -> bool {
    match reserved {
        Err(None) => told == Err::<Result<(), SendErrorNoWait<T>>, _>(Fault::UpdateExhausted),
        Err(Some(refusal)) => send_told(Err(refusal), value, told),
        Ok(claimed) => send_told(Ok(fields(claimed)), value, told),
    }
}

/// `told` is what a consumer is told when its request for a slot came to `reserved`:
/// the word that was stored with the claim, a refusal, or nothing where the request ran
/// out of rounds.
pub open spec fn recv_reserved_told<T>(
    reserved: Result<usize, Option<RecvRefusal>>,
    told: Result<Result<T, RecvErrorNoWait>, Fault>,
) -> bool {
    match reserved {
        Err(None) => told == Err::<Result<T, RecvErrorNoWait>, _>(Fault::UpdateExhausted),
        Err(Some(refusal)) => recv_told(Err(refusal), told),
        Ok(claimed) => recv_told(Ok(fields(claimed)), told),
    }
}

/// `told` is what a producer that offers `value` is told: that the request for a slot
/// ran out of rounds, or what follows from the answer to it for some state word on some
/// buffer.
pub open spec fn send_answers<T>(value: T, told: Result<Result<(), SendErrorNoWait<T>>, Fault>)
    -> bool {
    told == Err::<Result<(), SendErrorNoWait<T>>, _>(Fault::UpdateExhausted) || exists|
        seen: usize,
        len: usize,
    | #[trigger] send_told(tail_claim(fields(seen), len), value, told)
}

/// `told` is what a consumer is told: that the request for a slot ran out of rounds, or
/// what follows from the answer to it for some state word on some buffer.
pub open spec fn recv_answers<T>(told: Result<Result<T, RecvErrorNoWait>, Fault>) -> bool {
    told == Err::<Result<T, RecvErrorNoWait>, _>(Fault::UpdateExhausted) || exists|
        seen: usize,
        len: usize,
    | #[trigger] recv_told(head_claim(fields(seen), len), told)
}

/// `told` is what tearing down comes to for some number of attached endpoints and some
/// state word on some buffer.
pub open spec fn reclaim_answers(told: Result<usize, Fault>) -> bool {
    exists|seen: usize, refs: usize, len: usize| #[trigger]
        reclaim_told(reclaim_plan(fields(seen), refs, len), told)
}

/// A link takes a buffer of `len` slots exactly when every index fits its field with one
/// value to spare.
pub open spec fn capacity_check(len: usize) -> Result<(), Fault> {
    if len < MASK_INDEX {
        Ok(())
    } else {
        Err(Fault::BadCapacity)
    }
}

/// Decides whether a link takes a buffer of `len` slots.
pub fn check_capacity(len: usize) -> (r: Result<(), Fault>)
    ensures
        r == capacity_check(len),
{
    if len >= max_len() {
        Err(Fault::BadCapacity)
    } else {
        Ok(())
    }
}

/// What tearing the link down has to destroy when `refs` endpoints are attached and the
/// word reads `seen`: the first published slot and the number of published slots from
/// there on.  A link with an endpoint attached must not be torn down, and with none
/// attached no claim can be under way.
pub open spec fn reclaim_plan(seen: Fields, refs: usize, len: usize) -> Result<
    (usize, usize),
    Fault,
> {
    if refs != 0 {
        Err(Fault::StillAttached)
    } else if seen.head_avail != seen.head_taken || seen.tail_avail != seen.tail_taken {
        Err(Fault::Corrupted)
    } else if seen.head_avail == seen.tail_avail {
        Ok((seen.head_avail, 0))
    } else if !capacity_ok(len) {
        Err(Fault::BadCapacity)
    } else if seen.head_avail >= len || seen.tail_avail >= len {
        Err(Fault::Corrupted)
    } else {
        Ok((seen.head_avail, ring_distance(seen.head_avail, seen.tail_avail, len) as usize))
    }
}

/// Decides what tearing the link down has to destroy, for `refs` attached endpoints,
/// the word `bits` and a buffer of `len` slots.
pub fn plan_reclaim(bits: usize, refs: usize, len: usize) -> (r: Result<(usize, usize), Fault>)
    ensures
        r == reclaim_plan(fields(bits), refs, len),
        r matches Ok((first, count)) ==> count < len || count == 0,
        r matches Ok((first, count)) ==> count > 0 ==> first < len,
{
    let head = head_avail(bits);
    let tail = tail_avail(bits);
    if refs != 0 {
        Err(Fault::StillAttached)
    } else if head != head_taken(bits) || tail != tail_taken(bits) {
        Err(Fault::Corrupted)
    } else if head == tail {
        Ok((head, 0))
    } else if len == 0 || len >= max_len() {
        Err(Fault::BadCapacity)
    } else if head >= len || tail >= len {
        Err(Fault::Corrupted)
    } else {
        Ok((head, distance(head, tail, len)))
    }
}

/// Answers a producer that wants a slot of a buffer of `len` slots and read `bits`.
pub fn reserve_tail(bits: usize, len: usize) -> (r: Result<AtomicUpdate<usize>, SendRefusal>)
    ensures
        tail_reserved(bits, len, r),
{
    let head_avail = head_avail(bits);
    let tail_taken = tail_taken(bits);
    if is_closed(bits) {
        Err(SendRefusal::Closed)
    } else if len == 0 || len >= max_len() {
        Err(SendRefusal::Fault(Fault::BadCapacity))
    } else if head_avail >= len || tail_taken >= len {
        Err(SendRefusal::Fault(Fault::Corrupted))
    } else {
        proof {
            lemma_layout();
        }
        let tail_if_full = (head_avail + len - 1) % len;
        if tail_taken == tail_if_full {
            Err(SendRefusal::Full)
        } else {
            Ok(AtomicUpdate::Store(set_tail_taken(bits, step(tail_taken, len))))
        }
    }
}

/// Answers a consumer that wants a slot of a buffer of `len` slots and read `bits`.
pub fn reserve_head(bits: usize, len: usize) -> (r: Result<AtomicUpdate<usize>, RecvRefusal>)
    ensures
        head_reserved(bits, len, r),
{
    let head_taken = head_taken(bits);
    let tail_avail = tail_avail(bits);
    if tail_avail == head_taken {
        if is_closed(bits) {
            Err(RecvRefusal::Closed)
        } else {
            Err(RecvRefusal::Empty)
        }
    } else if len == 0 || len >= max_len() {
        Err(RecvRefusal::Fault(Fault::BadCapacity))
    } else if head_taken >= len {
        Err(RecvRefusal::Fault(Fault::Corrupted))
    } else {
        Ok(AtomicUpdate::Store(set_head_taken(bits, step(head_taken, len))))
    }
}

/// Answers the producer that claimed slot `this` and wrote it, and now read `bits`.
pub fn commit_tail(bits: usize, this: usize, next: usize) -> (r: Result<
    AtomicUpdate<usize>,
    Fault,
>)
    requires
        next <= MASK_INDEX,
    ensures
        tail_committed(bits, this, next, r),
{
    if tail_avail(bits) == this {
        Ok(AtomicUpdate::Store(set_tail_avail(bits, next)))
    } else {
        Ok(AtomicUpdate::Retry)
    }
}

/// Answers the consumer that claimed slot `this` and emptied it, and now read `bits`.
pub fn commit_head(bits: usize, this: usize, next: usize) -> (r: Result<
    AtomicUpdate<usize>,
    Fault,
>)
    requires
        next <= MASK_INDEX,
    ensures
        head_committed(bits, this, next, r),
{
    if head_avail(bits) == this {
        Ok(AtomicUpdate::Store(set_head_avail(bits, next)))
    } else {
        Ok(AtomicUpdate::Retry)
    }
}

/// The update that closes the channel.
pub fn raise_closed(bits: usize) -> (r: Result<AtomicUpdate<usize>, Fault>)
    ensures
        closed_raised(bits, r),
{
    Ok(AtomicUpdate::Store(set_closed(bits)))
}

} // verus!
