//! The state byte of the rendezvous channel and what an endpoint does with the byte it
//! observed.

use crate::utils::bits::{
    field_mask, flag, lemma_flag_pack_disjoint, lemma_flag_set_flag, lemma_flag_set_flag_disjoint,
    lemma_unpack_pack, lemma_unpack_set_flag_disjoint, pack, set_flag, spec_flag, spec_pack,
    spec_set_flag, spec_unpack, unpack,
};
use crate::error::{Fault, RecvErrorNoWait, SendErrorNoWait};
use crate::utils::AtomicUpdate;
use vstd::prelude::*;

verus! {

pub const POS_IS_CLOSED: u8 = 0;

pub const POS_IS_FULL: u8 = 1;

pub const POS_TX_IS_SET: u8 = 2;

pub const POS_RX_IS_SET: u8 = 3;

/// What a state byte says, flag by flag.
pub ghost struct Fields {
    pub closed: bool,
    pub full: bool,
    pub tx_set: bool,
    pub rx_set: bool,
}

/// Reads a state byte.
pub open spec fn fields(bits: u8) -> Fields {
    Fields {
        closed: spec_flag(bits, POS_IS_CLOSED) != 0,
        full: spec_unpack(bits, POS_IS_FULL, 1) != 0,
        tx_set: spec_flag(bits, POS_TX_IS_SET) != 0,
        rx_set: spec_flag(bits, POS_RX_IS_SET) != 0,
    }
}

/// What a producer does next.
#[derive(Debug, Clone, Copy, PartialEq, Eq)]
pub enum SendPlan {
    /// Give the value back: the channel is closed.
    Closed,
    /// Give the value back: the slot is taken.
    Full,
    /// Write the value into the slot, then mark it full.
    Write,
}

/// What a consumer does next.
#[derive(Debug, Clone, Copy, PartialEq, Eq)]
pub enum RecvPlan {
    /// The slot is empty and nothing will come: the channel is closed.
    Closed,
    /// The slot is empty.
    Empty,
    /// Move the value out of the slot, then mark it empty.
    Take,
}

/// The decision of a producer that saw `seen`.
pub open spec fn send_plan(seen: Fields) -> SendPlan {
    if seen.closed {
        SendPlan::Closed
    } else if seen.full {
        SendPlan::Full
    } else {
        SendPlan::Write
    }
}

/// The decision of a consumer that saw `seen`.  Closure counts only once the slot is
/// empty: what was sent before it is still delivered.
pub open spec fn recv_plan(seen: Fields) -> RecvPlan {
    if seen.full {
        RecvPlan::Take
    } else if seen.closed {
        RecvPlan::Closed
    } else {
        RecvPlan::Empty
    }
}

pub fn is_closed(bits: u8) -> (r: bool)
    ensures
        r == fields(bits).closed,
{
    flag::<u8>(bits, POS_IS_CLOSED) != 0
}

pub fn is_full(bits: u8) -> (r: bool)
    ensures
        r == fields(bits).full,
{
    unpack::<u8>(bits, POS_IS_FULL, 1) != 0
}

pub fn tx_is_set(bits: u8) -> (r: bool)
    ensures
        r == fields(bits).tx_set,
{
    flag::<u8>(bits, POS_TX_IS_SET) != 0
}

pub fn rx_is_set(bits: u8) -> (r: bool)
    ensures
        r == fields(bits).rx_set,
{
    flag::<u8>(bits, POS_RX_IS_SET) != 0
}

/// Raising the flag at `pos` changes no other flag, nor the full bit.
proof fn lemma_flag_raised(bits: u8, pos: u8)
    requires
        pos == POS_IS_CLOSED || pos == POS_TX_IS_SET || pos == POS_RX_IS_SET,
    ensures
        ({
            let raised = spec_set_flag(bits, pos);
            &&& spec_flag(raised, pos) != 0
            &&& fields(raised).full == fields(bits).full
            &&& pos != POS_IS_CLOSED ==> fields(raised).closed == fields(bits).closed
            &&& pos != POS_TX_IS_SET ==> fields(raised).tx_set == fields(bits).tx_set
            &&& pos != POS_RX_IS_SET ==> fields(raised).rx_set == fields(bits).rx_set
        }),
{
    lemma_flag_set_flag::<u8>(bits, pos);
    lemma_unpack_set_flag_disjoint::<u8>(bits, pos, POS_IS_FULL, 1);
    if pos != POS_IS_CLOSED {
        lemma_flag_set_flag_disjoint::<u8>(bits, pos, POS_IS_CLOSED);
    }
    if pos != POS_TX_IS_SET {
        lemma_flag_set_flag_disjoint::<u8>(bits, pos, POS_TX_IS_SET);
    }
    if pos != POS_RX_IS_SET {
        lemma_flag_set_flag_disjoint::<u8>(bits, pos, POS_RX_IS_SET);
    }
}

pub fn set_closed(bits: u8) -> (r: u8)
    ensures
        r == spec_set_flag(bits, POS_IS_CLOSED),
        fields(r) == (Fields { closed: true, ..fields(bits) }),
{
    proof {
        lemma_flag_raised(bits, POS_IS_CLOSED);
    }
    set_flag::<u8>(bits, POS_IS_CLOSED)
}

pub fn set_tx(bits: u8) -> (r: u8)
    ensures
        r == spec_set_flag(bits, POS_TX_IS_SET),
        fields(r) == (Fields { tx_set: true, ..fields(bits) }),
{
    proof {
        lemma_flag_raised(bits, POS_TX_IS_SET);
    }
    set_flag::<u8>(bits, POS_TX_IS_SET)
}

pub fn set_rx(bits: u8) -> (r: u8)
    ensures
        r == spec_set_flag(bits, POS_RX_IS_SET),
        fields(r) == (Fields { rx_set: true, ..fields(bits) }),
{
    proof {
        lemma_flag_raised(bits, POS_RX_IS_SET);
    }
    set_flag::<u8>(bits, POS_RX_IS_SET)
}

/// Marks the slot full or empty and leaves the flags alone.
pub fn set_full(bits: u8, full: bool) -> (r: u8)
    ensures
        r == spec_pack(bits, if full { 1u8 } else { 0u8 }, POS_IS_FULL, 1),
        fields(r) == (Fields { full, ..fields(bits) }),
{
    let value: u8 = if full {
        1
    } else {
        0
    };
    proof {
        lemma_unpack_pack::<u8>(bits, value, POS_IS_FULL, 1);
        lemma_flag_pack_disjoint::<u8>(bits, value, POS_IS_FULL, 1, POS_IS_CLOSED);
        lemma_flag_pack_disjoint::<u8>(bits, value, POS_IS_FULL, 1, POS_TX_IS_SET);
        lemma_flag_pack_disjoint::<u8>(bits, value, POS_IS_FULL, 1, POS_RX_IS_SET);
        assert(field_mask::<u8>(1) == 1u8) by {
            assert(!(!0u8 << 1u8) == 1u8) by (bit_vector);
        }
        assert(1u8 & 1u8 == 1u8 && 0u8 & 1u8 == 0u8) by (bit_vector);
    }
    pack::<u8>(bits, value, POS_IS_FULL, 1)
}

/// `told` is what a producer that offers `value` is told when it carries out `plan`: a
/// refusal hands the value back, and a write ends in acceptance unless the slot or the
/// byte turns out not to be the producer's own.
pub open spec fn send_told<T>(
    plan: SendPlan,
    value: T,
    told: Result<Result<(), SendErrorNoWait<T>>, Fault>,
) -> bool {
    match plan {
        SendPlan::Closed => told == Ok::<_, Fault>(Err::<(), _>(SendErrorNoWait::Closed(value))),
        SendPlan::Full => told == Ok::<_, Fault>(Err::<(), _>(SendErrorNoWait::Full(value))),
        SendPlan::Write => told == Ok::<Result<(), SendErrorNoWait<T>>, Fault>(Ok(())) || told
            == Err::<Result<(), SendErrorNoWait<T>>, _>(Fault::UpdateExhausted) || told == Err::<
            Result<(), SendErrorNoWait<T>>,
            _,
        >(Fault::Corrupted),
    }
}

/// `told` is what a consumer is told when it carries out `plan`: closed or empty as
/// planned, and a value where one is to be taken unless the slot or the byte turns out
/// not to be the consumer's own.
pub open spec fn recv_told<T>(plan: RecvPlan, told: Result<Result<T, RecvErrorNoWait>, Fault>)
    -> bool {
    match plan {
        RecvPlan::Closed => told == Ok::<_, Fault>(Err::<T, _>(RecvErrorNoWait::Closed)),
        RecvPlan::Empty => told == Ok::<_, Fault>(Err::<T, _>(RecvErrorNoWait::Empty)),
        RecvPlan::Take => told matches Ok(Ok(_)) || told == Err::<Result<T, RecvErrorNoWait>, _>(
            Fault::UpdateExhausted,
        ) || told == Err::<Result<T, RecvErrorNoWait>, _>(Fault::Corrupted),
    }
}

/// `told` is what tearing down comes to when it carries out `plan`: the fault of the
/// plan, or the number of values planned for unless the slot turns out empty.
pub open spec fn reclaim_told(plan: Result<usize, Fault>, told: Result<usize, Fault>) -> bool {
    match plan {
        Err(fault) => told == Err::<usize, _>(fault),
        Ok(count) => told == Ok::<_, Fault>(count) || (count == 1 && told == Err::<usize, _>(
            Fault::Corrupted,
        )),
    }
}

/// `told` is what a producer that offers `value` is told for some state byte: the one
/// that the link held when it was read.
pub open spec fn send_answers<T>(value: T, told: Result<Result<(), SendErrorNoWait<T>>, Fault>)
    -> bool {
    exists|seen: u8| #[trigger] send_told(send_plan(fields(seen)), value, told)
}

/// `told` is what a consumer is told for some state byte.
pub open spec fn recv_answers<T>(told: Result<Result<T, RecvErrorNoWait>, Fault>) -> bool {
    exists|seen: u8| #[trigger] recv_told(recv_plan(fields(seen)), told)
}

/// `told` is what tearing down comes to for some state byte.
pub open spec fn reclaim_answers(told: Result<usize, Fault>) -> bool {
    exists|seen: u8| #[trigger] reclaim_told(reclaim_plan(fields(seen)), told)
}

/// What tearing the link down has to destroy when the byte reads `seen`: the number of
/// values in the slot.  A link that is open with an endpoint attached must not be torn
/// down.
pub open spec fn reclaim_plan(seen: Fields) -> Result<usize, Fault> {
    if !seen.closed && (seen.tx_set || seen.rx_set) {
        Err(Fault::StillAttached)
    } else if seen.full {
        Ok(1)
    } else {
        Ok(0)
    }
}

/// Decides what tearing the link down has to destroy, for the byte `bits`.
pub fn plan_reclaim(bits: u8) -> (r: Result<usize, Fault>)
    ensures
        r == reclaim_plan(fields(bits)),
{
    if !is_closed(bits) && (tx_is_set(bits) || rx_is_set(bits)) {
        Err(Fault::StillAttached)
    } else if is_full(bits) {
        Ok(1)
    } else {
        Ok(0)
    }
}

/// Decides what a producer does that read `bits` from the link.
pub fn plan_send(bits: u8) -> (r: SendPlan)
    ensures
        r == send_plan(fields(bits)),
{
    if is_closed(bits) {
        SendPlan::Closed
    } else if is_full(bits) {
        SendPlan::Full
    } else {
        SendPlan::Write
    }
}

/// Decides what a consumer does that read `bits` from the link.
pub fn plan_recv(bits: u8) -> (r: RecvPlan)
    ensures
        r == recv_plan(fields(bits)),
{
    if is_full(bits) {
        RecvPlan::Take
    } else if is_closed(bits) {
        RecvPlan::Closed
    } else {
        RecvPlan::Empty
    }
}

/// `asked` is the update that marks the slot full or empty and changes nothing else.
pub open spec fn full_marked(seen: u8, full: bool, asked: Result<AtomicUpdate<u8>, Fault>) -> bool {
    asked matches Ok(AtomicUpdate::Store(new)) && fields(new) == (Fields { full, ..fields(seen) })
}

/// `asked` is the update that closes the channel: the closed flag is raised, nothing
/// else changes.
pub open spec fn closed_raised(seen: u8, asked: Result<AtomicUpdate<u8>, Fault>) -> bool {
    asked matches Ok(AtomicUpdate::Store(new)) && fields(new) == (Fields {
        closed: true,
        ..fields(seen)
    })
}

/// `asked` is the answer to a producer that wants to attach: refused where one is
/// attached already, else the update that marks it present.
pub open spec fn tx_attached(seen: u8, asked: Result<AtomicUpdate<u8>, Fault>) -> bool {
    if fields(seen).tx_set {
        asked == Err::<AtomicUpdate<u8>, Fault>(Fault::AlreadyAttached)
    } else {
        asked matches Ok(AtomicUpdate::Store(new)) && fields(new) == (Fields {
            tx_set: true,
            ..fields(seen)
        })
    }
}

/// `asked` is the answer to a consumer that wants to attach: refused where one is
/// attached already, else the update that marks it present.
pub open spec fn rx_attached(seen: u8, asked: Result<AtomicUpdate<u8>, Fault>) -> bool {
    if fields(seen).rx_set {
        asked == Err::<AtomicUpdate<u8>, Fault>(Fault::AlreadyAttached)
    } else {
        asked matches Ok(AtomicUpdate::Store(new)) && fields(new) == (Fields {
            rx_set: true,
            ..fields(seen)
        })
    }
}

/// The update that marks the slot full or empty.
pub fn mark_full(bits: u8, full: bool) -> (r: Result<AtomicUpdate<u8>, Fault>)
    ensures
        full_marked(bits, full, r),
{
    Ok(AtomicUpdate::Store(set_full(bits, full)))
}

/// The update that closes the channel.
pub fn raise_closed(bits: u8) -> (r: Result<AtomicUpdate<u8>, Fault>)
    ensures
        closed_raised(bits, r),
{
    Ok(AtomicUpdate::Store(set_closed(bits)))
}

/// Answers a producer that wants to attach to a link whose byte reads `bits`.
pub fn attach_tx(bits: u8) -> (r: Result<AtomicUpdate<u8>, Fault>)
    ensures
        tx_attached(bits, r),
{
    if tx_is_set(bits) {
        Err(Fault::AlreadyAttached)
    } else {
        Ok(AtomicUpdate::Store(set_tx(bits)))
    }
}

/// Answers a consumer that wants to attach to a link whose byte reads `bits`.
pub fn attach_rx(bits: u8) -> (r: Result<AtomicUpdate<u8>, Fault>)
    ensures
        rx_attached(bits, r),
{
    if rx_is_set(bits) {
        Err(Fault::AlreadyAttached)
    } else {
        Ok(AtomicUpdate::Store(set_rx(bits)))
    }
}

} // verus!
