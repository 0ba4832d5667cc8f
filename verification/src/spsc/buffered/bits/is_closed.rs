//! The flag that says the channel is closed.

use crate::spsc::buffered::bits::{
    fields, lemma_layout, Fields, INDEX_BIT_COUNT, POS_IS_CLOSED, POS_RX_IS_SET, POS_TX_IS_SET,
    START_HEAD, START_TAIL,
};
use crate::utils::bits::{
    flag, lemma_flag_set_flag, lemma_flag_set_flag_disjoint, lemma_unpack_set_flag_disjoint,
    set_flag, spec_set_flag,
};
use vstd::prelude::*;

verus! {

pub fn is_set(bits: usize) -> (r: bool)
    ensures
        r == fields(bits).closed,
{
    flag::<usize>(bits, POS_IS_CLOSED) != 0
}

pub fn set(bits: usize) -> (r: usize)
    ensures
        r == spec_set_flag(bits, POS_IS_CLOSED),
        fields(r) == (Fields { closed: true, ..fields(bits) }),
{
    proof {
        lemma_layout();
        lemma_flag_set_flag::<usize>(bits, POS_IS_CLOSED);
        lemma_flag_set_flag_disjoint::<usize>(bits, POS_IS_CLOSED, POS_TX_IS_SET);
        lemma_flag_set_flag_disjoint::<usize>(bits, POS_IS_CLOSED, POS_RX_IS_SET);
        lemma_unpack_set_flag_disjoint::<usize>(bits, POS_IS_CLOSED, START_HEAD, INDEX_BIT_COUNT);
        lemma_unpack_set_flag_disjoint::<usize>(bits, POS_IS_CLOSED, START_TAIL, INDEX_BIT_COUNT);
    }
    set_flag::<usize>(bits, POS_IS_CLOSED)
}

} // verus!
