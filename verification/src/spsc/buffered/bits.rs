//! The state word of the buffered channel: three flags in the lowest bits, then the head
//! index, then the tail index, each index half of what the flags leave of the word.

use crate::utils::bits::{spec_flag, spec_unpack};
use vstd::prelude::*;

pub mod head;
pub mod is_closed;
pub mod rx_is_set;
pub mod tail;
pub mod tx_is_set;

verus! {

pub const POS_IS_CLOSED: u8 = 0;

pub const POS_TX_IS_SET: u8 = 1;

pub const POS_RX_IS_SET: u8 = 2;

pub const FLAGS_COUNT: u8 = 3;

pub const INDEX_BIT_COUNT: u8 = ((usize::BITS - 3) / 2) as u8;

pub const START_HEAD: u8 = FLAGS_COUNT;

pub const START_TAIL: u8 = FLAGS_COUNT + INDEX_BIT_COUNT;

/// The largest value an index field holds.
pub const MASK_INDEX: usize = !(!0usize << INDEX_BIT_COUNT);

/// What a state word says, field by field.
pub ghost struct Fields {
    pub closed: bool,
    pub tx_set: bool,
    pub rx_set: bool,
    pub head: usize,
    pub tail: usize,
}

/// Reads a state word.
pub open spec fn fields(bits: usize) -> Fields {
    Fields {
        closed: spec_flag(bits, POS_IS_CLOSED) != 0,
        tx_set: spec_flag(bits, POS_TX_IS_SET) != 0,
        rx_set: spec_flag(bits, POS_RX_IS_SET) != 0,
        head: spec_unpack(bits, START_HEAD, INDEX_BIT_COUNT),
        tail: spec_unpack(bits, START_TAIL, INDEX_BIT_COUNT),
    }
}

/// The layout fits the word on either word width, and an index field holds 14 bits of a
/// 32-bit word and 30 bits of a 64-bit one.
pub proof fn lemma_layout()
    ensures
        usize::BITS == 32 ==> INDEX_BIT_COUNT == 14 && MASK_INDEX == 0x3fff,
        usize::BITS == 64 ==> INDEX_BIT_COUNT == 30 && MASK_INDEX == 0x3fff_ffff,
        START_TAIL + INDEX_BIT_COUNT <= usize::BITS,
{
    assert(usize::BITS == 32 ==> !(!0usize << 14u8) == 0x3fff) by (bit_vector);
    assert(usize::BITS == 64 ==> !(!0usize << 30u8) == 0x3fff_ffff) by (bit_vector);
}

/// An index field never reads above [`MASK_INDEX`], and an index up to it passes through
/// the field unchanged.
pub proof fn lemma_index_range(bits: usize, start: u8)
    requires
        start < usize::BITS,
    ensures
        spec_unpack(bits, start, INDEX_BIT_COUNT) <= MASK_INDEX,
        bits <= MASK_INDEX ==> bits & MASK_INDEX == bits,
{
    assert(((bits >> start) & !(!0usize << INDEX_BIT_COUNT)) <= !(!0usize << INDEX_BIT_COUNT))
        by (bit_vector);
    assert(bits <= !(!0usize << INDEX_BIT_COUNT) ==> bits & !(!0usize << INDEX_BIT_COUNT) == bits)
        by (bit_vector);
}

/// The number of slots a buffer must stay under: an index has to fit its field.
pub fn max_len() -> (r: usize)
    ensures
        r == MASK_INDEX,
        usize::BITS == 32 ==> r == 16_383,
        usize::BITS == 64 ==> r == 1_073_741_823,
{
    proof {
        lemma_layout();
    }
    MASK_INDEX
}

} // verus!
