//! The flag that says a producer is attached.

use crate::spsc::buffered::bits::{
    fields, lemma_layout, Fields, INDEX_BIT_COUNT, POS_IS_CLOSED, POS_RX_IS_SET, POS_TX_IS_SET,
    START_HEAD, START_TAIL,
};
use crate::utils::bits::{
    flag, lemma_flag_set_flag, lemma_flag_set_flag_disjoint, lemma_unpack_set_flag_disjoint,
    set_flag, spec_set_flag,
};
use vstd::prelude::*;

verus! {

pub fn is_set(bits: usize) -> (r: bool)
    ensures
        r == fields(bits).tx_set,
{
    flag::<usize>(bits, POS_TX_IS_SET) != 0
}

pub fn set(bits: usize) -> (r: usize)
    ensures
        r == spec_set_flag(bits, POS_TX_IS_SET),
        fields(r) == (Fields { tx_set: true, ..fields(bits) }),
{
    proof {
        lemma_layout();
        lemma_flag_set_flag::<usize>(bits, POS_TX_IS_SET);
        lemma_flag_set_flag_disjoint::<usize>(bits, POS_TX_IS_SET, POS_IS_CLOSED);
        lemma_flag_set_flag_disjoint::<usize>(bits, POS_TX_IS_SET, POS_RX_IS_SET);
        lemma_unpack_set_flag_disjoint::<usize>(bits, POS_TX_IS_SET, START_HEAD, INDEX_BIT_COUNT);
        lemma_unpack_set_flag_disjoint::<usize>(bits, POS_TX_IS_SET, START_TAIL, INDEX_BIT_COUNT);
    }
    set_flag::<usize>(bits, POS_TX_IS_SET)
}

} // verus!
