//! The head index of the ring.

use crate::spsc::buffered::bits::{
    fields, lemma_index_range, lemma_layout, Fields, INDEX_BIT_COUNT, MASK_INDEX, POS_IS_CLOSED,
    POS_RX_IS_SET, POS_TX_IS_SET, START_HEAD, START_TAIL,
};
use crate::utils::bits::{
    lemma_flag_pack_disjoint, lemma_unpack_pack, lemma_unpack_pack_disjoint, pack, spec_pack,
    unpack,
};
use vstd::prelude::*;

verus! {

pub fn get(bits: usize) -> (r: usize)
    ensures
        r == fields(bits).head,
        r <= MASK_INDEX,
{
    proof {
        lemma_layout();
        lemma_index_range(bits, START_HEAD);
    }
    unpack::<usize>(bits, START_HEAD, INDEX_BIT_COUNT)
}

pub fn set(bits: usize, index: usize) -> (r: usize)
    ensures
        r == spec_pack(bits, index, START_HEAD, INDEX_BIT_COUNT),
        fields(r) == (Fields { head: index & MASK_INDEX, ..fields(bits) }),
        index <= MASK_INDEX ==> fields(r).head == index,
{
    proof {
        lemma_layout();
        lemma_index_range(index, START_HEAD);
        lemma_unpack_pack::<usize>(bits, index, START_HEAD, INDEX_BIT_COUNT);
        lemma_unpack_pack_disjoint::<usize>(
            bits,
            index,
            START_HEAD,
            INDEX_BIT_COUNT,
            START_TAIL,
            INDEX_BIT_COUNT,
        );
        lemma_flag_pack_disjoint::<usize>(bits, index, START_HEAD, INDEX_BIT_COUNT, POS_IS_CLOSED);
        lemma_flag_pack_disjoint::<usize>(bits, index, START_HEAD, INDEX_BIT_COUNT, POS_TX_IS_SET);
        lemma_flag_pack_disjoint::<usize>(bits, index, START_HEAD, INDEX_BIT_COUNT, POS_RX_IS_SET);
    }
    pack::<usize>(bits, index, START_HEAD, INDEX_BIT_COUNT)
}

} // verus!
