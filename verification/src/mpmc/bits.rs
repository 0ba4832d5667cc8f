//! The state word of the multi-producer/multi-consumer channel: the closed flag in the
//! lowest bit, then four indices of equal width.  Consumers claim slots at head-taken and
//! hand them back at head-avail; producers claim slots at tail-taken and publish them at
//! tail-avail.

use crate::utils::bits::{
    flag, lemma_flag_pack_disjoint, lemma_flag_set_flag, lemma_unpack_pack,
    lemma_unpack_pack_disjoint, lemma_unpack_set_flag_disjoint, pack, set_flag, spec_flag,
    spec_pack, spec_set_flag, spec_unpack, unpack,
};
use vstd::prelude::*;

verus! {

pub const POS_IS_CLOSED: u8 = 0;

pub const FLAGS_COUNT: u8 = 1;

pub const INDEX_BIT_COUNT: u8 = ((usize::BITS - 1) / 4) as u8;

pub const START_HEAD_TAKEN: u8 = FLAGS_COUNT;

pub const START_HEAD_AVAIL: u8 = FLAGS_COUNT + INDEX_BIT_COUNT;

pub const START_TAIL_TAKEN: u8 = FLAGS_COUNT + INDEX_BIT_COUNT * 2;

pub const START_TAIL_AVAIL: u8 = FLAGS_COUNT + INDEX_BIT_COUNT * 3;

/// The largest value an index field holds.
pub const MASK_INDEX: usize = !(!0usize << INDEX_BIT_COUNT);

/// What a state word says, field by field.
pub ghost struct Fields {
    pub closed: bool,
    pub head_taken: usize,
    pub head_avail: usize,
    pub tail_taken: usize,
    pub tail_avail: usize,
}

/// Reads a state word.
pub open spec fn fields(bits: usize) -> Fields {
    Fields {
        closed: spec_flag(bits, POS_IS_CLOSED) != 0,
        head_taken: spec_unpack(bits, START_HEAD_TAKEN, INDEX_BIT_COUNT),
        head_avail: spec_unpack(bits, START_HEAD_AVAIL, INDEX_BIT_COUNT),
        tail_taken: spec_unpack(bits, START_TAIL_TAKEN, INDEX_BIT_COUNT),
        tail_avail: spec_unpack(bits, START_TAIL_AVAIL, INDEX_BIT_COUNT),
    }
}

/// The layout fits the word on either word width, and an index field holds 7 bits of a
/// 32-bit word and 15 bits of a 64-bit one.
pub proof fn lemma_layout()
    ensures
        usize::BITS == 32 ==> INDEX_BIT_COUNT == 7 && MASK_INDEX == 0x7f,
        usize::BITS == 64 ==> INDEX_BIT_COUNT == 15 && MASK_INDEX == 0x7fff,
        START_TAIL_AVAIL + INDEX_BIT_COUNT <= usize::BITS,
{
    assert(usize::BITS == 32 ==> !(!0usize << 7u8) == 0x7f) by (bit_vector);
    assert(usize::BITS == 64 ==> !(!0usize << 15u8) == 0x7fff) by (bit_vector);
}

/// An index field never reads above [`MASK_INDEX`], and an index up to it passes through
/// the field unchanged.
pub proof fn lemma_index_range(bits: usize, start: u8)
    requires
        start < usize::BITS,
    ensures
        spec_unpack(bits, start, INDEX_BIT_COUNT) <= MASK_INDEX,
        bits <= MASK_INDEX ==> bits & MASK_INDEX == bits,
{
    assert(((bits >> start) & !(!0usize << INDEX_BIT_COUNT)) <= !(!0usize << INDEX_BIT_COUNT))
        by (bit_vector);
    assert(bits <= !(!0usize << INDEX_BIT_COUNT) ==> bits & !(!0usize << INDEX_BIT_COUNT) == bits)
        by (bit_vector);
}

/// The number of slots a buffer must stay under: an index has to fit its field.
pub fn max_len() -> (r: usize)
    ensures
        r == MASK_INDEX,
        usize::BITS == 32 ==> r == 127,
        usize::BITS == 64 ==> r == 32_767,
{
    proof {
        lemma_layout();
    }
    MASK_INDEX
}

pub fn is_closed(bits: usize) -> (r: bool)
    ensures
        r == fields(bits).closed,
{
    flag::<usize>(bits, POS_IS_CLOSED) != 0
}

pub fn set_closed(bits: usize) -> (r: usize)
    ensures
        r == spec_set_flag(bits, POS_IS_CLOSED),
        fields(r) == (Fields { closed: true, ..fields(bits) }),
{
    proof {
        lemma_layout();
        lemma_flag_set_flag::<usize>(bits, POS_IS_CLOSED);
        lemma_unpack_set_flag_disjoint::<usize>(
            bits,
            POS_IS_CLOSED,
            START_HEAD_TAKEN,
            INDEX_BIT_COUNT,
        );
        lemma_unpack_set_flag_disjoint::<usize>(
            bits,
            POS_IS_CLOSED,
            START_HEAD_AVAIL,
            INDEX_BIT_COUNT,
        );
        lemma_unpack_set_flag_disjoint::<usize>(
            bits,
            POS_IS_CLOSED,
            START_TAIL_TAKEN,
            INDEX_BIT_COUNT,
        );
        lemma_unpack_set_flag_disjoint::<usize>(
            bits,
            POS_IS_CLOSED,
            START_TAIL_AVAIL,
            INDEX_BIT_COUNT,
        );
    }
    set_flag::<usize>(bits, POS_IS_CLOSED)
}

/// Writing the index at `start` changes neither the flag nor any index that starts
/// elsewhere.
proof fn lemma_index_written(bits: usize, value: usize, start: u8)
    requires
        start == START_HEAD_TAKEN || start == START_HEAD_AVAIL || start == START_TAIL_TAKEN
            || start == START_TAIL_AVAIL,
    ensures
        ({
            let written = spec_pack(bits, value, start, INDEX_BIT_COUNT);
            &&& fields(written).closed == fields(bits).closed
            &&& spec_unpack(written, start, INDEX_BIT_COUNT) == value & MASK_INDEX
            &&& start != START_HEAD_TAKEN ==> fields(written).head_taken == fields(
                bits,
            ).head_taken
            &&& start != START_HEAD_AVAIL ==> fields(written).head_avail == fields(
                bits,
            ).head_avail
            &&& start != START_TAIL_TAKEN ==> fields(written).tail_taken == fields(
                bits,
            ).tail_taken
            &&& start != START_TAIL_AVAIL ==> fields(written).tail_avail == fields(
                bits,
            ).tail_avail
        }),
{
    lemma_layout();
    lemma_unpack_pack::<usize>(bits, value, start, INDEX_BIT_COUNT);
    lemma_flag_pack_disjoint::<usize>(bits, value, start, INDEX_BIT_COUNT, POS_IS_CLOSED);
    if start != START_HEAD_TAKEN {
        lemma_unpack_pack_disjoint::<usize>(
            bits,
            value,
            start,
            INDEX_BIT_COUNT,
            START_HEAD_TAKEN,
            INDEX_BIT_COUNT,
        );
    }
    if start != START_HEAD_AVAIL {
        lemma_unpack_pack_disjoint::<usize>(
            bits,
            value,
            start,
            INDEX_BIT_COUNT,
            START_HEAD_AVAIL,
            INDEX_BIT_COUNT,
        );
    }
    if start != START_TAIL_TAKEN {
        lemma_unpack_pack_disjoint::<usize>(
            bits,
            value,
            start,
            INDEX_BIT_COUNT,
            START_TAIL_TAKEN,
            INDEX_BIT_COUNT,
        );
    }
    if start != START_TAIL_AVAIL {
        lemma_unpack_pack_disjoint::<usize>(
            bits,
            value,
            start,
            INDEX_BIT_COUNT,
            START_TAIL_AVAIL,
            INDEX_BIT_COUNT,
        );
    }
}

pub fn head_taken(bits: usize) -> (r: usize)
    ensures
        r == fields(bits).head_taken,
        r <= MASK_INDEX,
{
    proof {
        lemma_layout();
        lemma_index_range(bits, START_HEAD_TAKEN);
    }
    unpack::<usize>(bits, START_HEAD_TAKEN, INDEX_BIT_COUNT)
}

pub fn set_head_taken(bits: usize, value: usize) -> (r: usize)
    ensures
        r == spec_pack(bits, value, START_HEAD_TAKEN, INDEX_BIT_COUNT),
        fields(r) == (Fields { head_taken: value & MASK_INDEX, ..fields(bits) }),
        value <= MASK_INDEX ==> fields(r).head_taken == value,
{
    proof {
        lemma_layout();
        lemma_index_range(value, START_HEAD_TAKEN);
        lemma_index_written(bits, value, START_HEAD_TAKEN);
    }
    pack::<usize>(bits, value, START_HEAD_TAKEN, INDEX_BIT_COUNT)
}

pub fn head_avail(bits: usize) -> (r: usize)
    ensures
        r == fields(bits).head_avail,
        r <= MASK_INDEX,
{
    proof {
        lemma_layout();
        lemma_index_range(bits, START_HEAD_AVAIL);
    }
    unpack::<usize>(bits, START_HEAD_AVAIL, INDEX_BIT_COUNT)
}

pub fn set_head_avail(bits: usize, value: usize) -> (r: usize)
    ensures
        r == spec_pack(bits, value, START_HEAD_AVAIL, INDEX_BIT_COUNT),
        fields(r) == (Fields { head_avail: value & MASK_INDEX, ..fields(bits) }),
        value <= MASK_INDEX ==> fields(r).head_avail == value,
{
    proof {
        lemma_layout();
        lemma_index_range(value, START_HEAD_AVAIL);
        lemma_index_written(bits, value, START_HEAD_AVAIL);
    }
    pack::<usize>(bits, value, START_HEAD_AVAIL, INDEX_BIT_COUNT)
}

pub fn tail_taken(bits: usize) -> (r: usize)
    ensures
        r == fields(bits).tail_taken,
        r <= MASK_INDEX,
{
    proof {
        lemma_layout();
        lemma_index_range(bits, START_TAIL_TAKEN);
    }
    unpack::<usize>(bits, START_TAIL_TAKEN, INDEX_BIT_COUNT)
}

pub fn set_tail_taken(bits: usize, value: usize) -> (r: usize)
    ensures
        r == spec_pack(bits, value, START_TAIL_TAKEN, INDEX_BIT_COUNT),
        fields(r) == (Fields { tail_taken: value & MASK_INDEX, ..fields(bits) }),
        value <= MASK_INDEX ==> fields(r).tail_taken == value,
{
    proof {
        lemma_layout();
        lemma_index_range(value, START_TAIL_TAKEN);
        lemma_index_written(bits, value, START_TAIL_TAKEN);
    }
    pack::<usize>(bits, value, START_TAIL_TAKEN, INDEX_BIT_COUNT)
}

pub fn tail_avail(bits: usize) -> (r: usize)
    ensures
        r == fields(bits).tail_avail,
        r <= MASK_INDEX,
{
    proof {
        lemma_layout();
        lemma_index_range(bits, START_TAIL_AVAIL);
    }
    unpack::<usize>(bits, START_TAIL_AVAIL, INDEX_BIT_COUNT)
}

pub fn set_tail_avail(bits: usize, value: usize) -> (r: usize)
    ensures
        r == spec_pack(bits, value, START_TAIL_AVAIL, INDEX_BIT_COUNT),
        fields(r) == (Fields { tail_avail: value & MASK_INDEX, ..fields(bits) }),
        value <= MASK_INDEX ==> fields(r).tail_avail == value,
{
    proof {
        lemma_layout();
        lemma_index_range(value, START_TAIL_AVAIL);
        lemma_index_written(bits, value, START_TAIL_AVAIL);
    }
    pack::<usize>(bits, value, START_TAIL_AVAIL, INDEX_BIT_COUNT)
}

} // verus!
