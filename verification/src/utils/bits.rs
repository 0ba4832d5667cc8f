//! Named bitfields inside an unsigned machine word.
//!
//! A field is a run of `len` bits that starts at bit `start`; a flag is a single bit.  The
//! functions are generic over the word, which has to offer the handful of bitwise
//! operations collected in [`BitOps`].

use vstd::prelude::*;

verus! {

/// The bitwise operations of an unsigned word, each with its meaning in specifications,
/// together with the facts about fields that every such word has to satisfy.
pub trait BitOps: Copy + Sized {
    /// The number of bits in the word.
    spec fn width() -> nat;

    /// The word whose value is `byte`.
    spec fn lift(byte: u8) -> Self;

    /// Every bit flipped.
    spec fn inv(self) -> Self;

    /// Bitwise and.
    spec fn and(self, rhs: Self) -> Self;

    /// Bitwise or.
    spec fn or(self, rhs: Self) -> Self;

    /// Shift towards the high bits, dropping what leaves the word.
    spec fn shl(self, by: u8) -> Self;

    /// Shift towards the low bits.
    spec fn shr(self, by: u8) -> Self;

    fn from_byte(byte: u8) -> (r: Self)
        ensures
            r == Self::lift(byte),
    ;

    fn not(self) -> (r: Self)
        ensures
            r == self.inv(),
    ;

    fn bitand(self, rhs: Self) -> (r: Self)
        ensures
            r == self.and(rhs),
    ;

    fn bitor(self, rhs: Self) -> (r: Self)
        ensures
            r == self.or(rhs),
    ;

    fn shift_left(self, by: u8) -> (r: Self)
        requires
            by < Self::width(),
        ensures
            r == self.shl(by),
    ;

    fn shift_right(self, by: u8) -> (r: Self)
        requires
            by < Self::width(),
        ensures
            r == self.shr(by),
    ;

    /// A field that was just written reads back as the value written, cut to the field.
    proof fn lemma_field_written(packed: Self, value: Self, start: u8, len: u8)
        requires
            len < Self::width(),
            start + len <= Self::width(),
        ensures
            ({
                let low = Self::lift(0).inv().shl(len).inv();
                let mask = low.shl(start);
                let written = packed.and(mask.inv()).or(value.shl(start).and(mask));
                written.shr(start).and(low) == value.and(low)
            }),
    ;

    /// Writing a field leaves every field that does not overlap it as it was.
    proof fn lemma_field_kept(
        packed: Self,
        value: Self,
        start: u8,
        len: u8,
        other_start: u8,
        other_len: u8,
    )
        requires
            len < Self::width(),
            start + len <= Self::width(),
            other_len < Self::width(),
            other_start + other_len <= Self::width(),
            other_start + other_len <= start || start + len <= other_start,
        ensures
            ({
                let mask = Self::lift(0).inv().shl(len).inv().shl(start);
                let other = Self::lift(0).inv().shl(other_len).inv();
                let written = packed.and(mask.inv()).or(value.shl(start).and(mask));
                written.shr(other_start).and(other) == packed.shr(other_start).and(other)
            }),
    ;

    /// Writing a field leaves every flag outside it as it was.
    proof fn lemma_flag_kept(packed: Self, value: Self, start: u8, len: u8, pos: u8)
        requires
            len < Self::width(),
            start + len <= Self::width(),
            pos < Self::width(),
            pos < start || start + len <= pos,
        ensures
            ({
                let mask = Self::lift(0).inv().shl(len).inv().shl(start);
                let written = packed.and(mask.inv()).or(value.shl(start).and(mask));
                written.and(Self::lift(1).shl(pos)) == packed.and(Self::lift(1).shl(pos))
            }),
    ;

    /// A flag that was just raised reads as raised.
    proof fn lemma_flag_raised(flags: Self, pos: u8)
        requires
            pos < Self::width(),
        ensures
            ({
                let bit = Self::lift(1).shl(pos);
                let raised = flags.or(Self::lift(0).inv().and(bit));
                raised.and(bit) == bit && bit != Self::lift(0)
            }),
    ;

    /// Raising a flag leaves every other flag as it was.
    proof fn lemma_flag_apart(flags: Self, pos: u8, other: u8)
        requires
            pos < Self::width(),
            other < Self::width(),
            pos != other,
        ensures
            ({
                let raised = flags.or(Self::lift(0).inv().and(Self::lift(1).shl(pos)));
                raised.and(Self::lift(1).shl(other)) == flags.and(Self::lift(1).shl(other))
            }),
    ;

    /// Raising a flag leaves every field that does not hold it as it was.
    proof fn lemma_field_apart(flags: Self, pos: u8, start: u8, len: u8)
        requires
            pos < Self::width(),
            len < Self::width(),
            start + len <= Self::width(),
            pos < start || start + len <= pos,
        ensures
            ({
                let low = Self::lift(0).inv().shl(len).inv();
                let raised = flags.or(Self::lift(0).inv().and(Self::lift(1).shl(pos)));
                raised.shr(start).and(low) == flags.shr(start).and(low)
            }),
    ;
}

/// The word with its low `len` bits set and the others clear.
pub open spec fn field_mask<F: BitOps>(len: u8) -> F {
    F::lift(0).inv().shl(len).inv()
}

/// `flags` with every bit but the one at `pos` cleared.
pub open spec fn spec_flag<F: BitOps>(flags: F, pos: u8) -> F {
    flags.and(F::lift(1).shl(pos))
}

/// `flags` with the bit at `pos` set.
pub open spec fn spec_set_flag<F: BitOps>(flags: F, pos: u8) -> F {
    flags.or(spec_flag(F::lift(0).inv(), pos))
}

/// The field of `len` bits at `start`, moved down to bit 0.
pub open spec fn spec_unpack<F: BitOps>(packed: F, start: u8, len: u8) -> F {
    packed.shr(start).and(field_mask::<F>(len))
}

/// `packed` with the field of `len` bits at `start` replaced by the low `len` bits of
/// `value`.
pub open spec fn spec_pack<F: BitOps>(packed: F, value: F, start: u8, len: u8) -> F {
    let mask = field_mask::<F>(len).shl(start);
    packed.and(mask.inv()).or(value.shl(start).and(mask))
}

/// The word with no bit set.
pub fn zeroes<F: BitOps>() -> (r: F)
    ensures
        r == F::lift(0),
{
    F::from_byte(0u8)
}

/// The word with every bit set.
pub fn ones<F: BitOps>() -> (r: F)
    ensures
        r == F::lift(0).inv(),
{
    zeroes::<F>().not()
}

/// Isolates the bit at `pos`: the result is zero exactly when that bit is clear.
pub fn flag<F: BitOps>(flags: F, pos: u8) -> (r: F)
    requires
        pos < F::width(),
    ensures
        r == spec_flag(flags, pos),
{
    let one: F = F::from_byte(1u8);
    let mask = one.shift_left(pos);
    flags.bitand(mask)
}

/// Raises the bit at `pos` and leaves the others alone.
pub fn set_flag<F: BitOps>(flags: F, pos: u8) -> (r: F)
    requires
        pos < F::width(),
    ensures
        r == spec_set_flag(flags, pos),
{
    flags.bitor(flag::<F>(ones::<F>(), pos))
}

/// Reads the field of `len` bits at `start`.
pub fn unpack<F: BitOps>(packed: F, start: u8, len: u8) -> (r: F)
    requires
        start < F::width(),
        len < F::width(),
    ensures
        r == spec_unpack(packed, start, len),
{
    let ones: F = ones::<F>();
    let mask = ones.shift_left(len).not();
    packed.shift_right(start).bitand(mask)
}

/// Writes the low `len` bits of `value` into the field at `start`, leaving the rest of
/// `packed` alone.
pub fn pack<F: BitOps>(packed: F, value: F, start: u8, len: u8) -> (r: F)
    requires
        start < F::width(),
        len < F::width(),
    ensures
        r == spec_pack(packed, value, start, len),
{
    let ones: F = ones::<F>();
    let mask = ones.shift_left(len).not().shift_left(start);
    let bits = value.shift_left(start).bitand(mask);
    packed.bitand(mask.not()).bitor(bits)
}

/// Reading a field right after writing it gives the value written, cut to `len` bits.
pub proof fn lemma_unpack_pack<F: BitOps>(packed: F, value: F, start: u8, len: u8)
    requires
        len < F::width(),
        start + len <= F::width(),
    ensures
        spec_unpack(spec_pack(packed, value, start, len), start, len) == value.and(
            field_mask::<F>(len),
        ),
{
    F::lemma_field_written(packed, value, start, len);
}

/// Writing one field changes no field that lies apart from it.
pub proof fn lemma_unpack_pack_disjoint<F: BitOps>(
    packed: F,
    value: F,
    start: u8,
    len: u8,
    other_start: u8,
    other_len: u8,
)
    requires
        len < F::width(),
        start + len <= F::width(),
        other_len < F::width(),
        other_start + other_len <= F::width(),
        other_start + other_len <= start || start + len <= other_start,
    ensures
        spec_unpack(spec_pack(packed, value, start, len), other_start, other_len) == spec_unpack(
            packed,
            other_start,
            other_len,
        ),
{
    F::lemma_field_kept(packed, value, start, len, other_start, other_len);
}

/// Writing a field changes no flag that lies outside it.
pub proof fn lemma_flag_pack_disjoint<F: BitOps>(packed: F, value: F, start: u8, len: u8, pos: u8)
    requires
        len < F::width(),
        start + len <= F::width(),
        pos < F::width(),
        pos < start || start + len <= pos,
    ensures
        spec_flag(spec_pack(packed, value, start, len), pos) == spec_flag(packed, pos),
{
    F::lemma_flag_kept(packed, value, start, len, pos);
}

/// A flag reads as raised right after it was raised.
pub proof fn lemma_flag_set_flag<F: BitOps>(flags: F, pos: u8)
    requires
        pos < F::width(),
    ensures
        spec_flag(spec_set_flag(flags, pos), pos) != F::lift(0),
{
    F::lemma_flag_raised(flags, pos);
}

/// Raising one flag changes no other flag.
pub proof fn lemma_flag_set_flag_disjoint<F: BitOps>(flags: F, pos: u8, other: u8)
    requires
        pos < F::width(),
        other < F::width(),
        pos != other,
    ensures
        spec_flag(spec_set_flag(flags, pos), other) == spec_flag(flags, other),
{
    F::lemma_flag_apart(flags, pos, other);
}

/// Raising a flag changes no field that lies apart from it.
pub proof fn lemma_unpack_set_flag_disjoint<F: BitOps>(flags: F, pos: u8, start: u8, len: u8)
    requires
        pos < F::width(),
        len < F::width(),
        start + len <= F::width(),
        pos < start || start + len <= pos,
    ensures
        spec_unpack(spec_set_flag(flags, pos), start, len) == spec_unpack(flags, start, len),
{
    F::lemma_field_apart(flags, pos, start, len);
}

proof fn lemma_u8_unpack_packed(b: u8, v: u8, s: u8, l: u8)
    by (bit_vector)
    requires
        l < 8,
        s + l <= 8,
    ensures
        (((b & !(!(!0u8 << l) << s)) | ((v << s) & (!(!0u8 << l) << s))) >> s) & !(!0u8 << l)
            == v & !(!0u8 << l),
{
}

proof fn lemma_u8_unpack_other(b: u8, v: u8, s: u8, l: u8, t: u8, m: u8)
    by (bit_vector)
    requires
        l < 8,
        s + l <= 8,
        m < 8,
        t + m <= 8,
        t + m <= s || s + l <= t,
    ensures
        (((b & !(!(!0u8 << l) << s)) | ((v << s) & (!(!0u8 << l) << s))) >> t) & !(!0u8 << m)
            == (b >> t) & !(!0u8 << m),
{
}

proof fn lemma_u8_flag_other(b: u8, v: u8, s: u8, l: u8, p: u8)
    by (bit_vector)
    requires
        l < 8,
        s + l <= 8,
        p < 8,
        p < s || s + l <= p,
    ensures
        ((b & !(!(!0u8 << l) << s)) | ((v << s) & (!(!0u8 << l) << s))) & (1u8 << p) == b & (1u8
            << p),
{
}

proof fn lemma_u8_flag_raised(b: u8, p: u8)
    by (bit_vector)
    requires
        p < 8,
    ensures
        (b | (!0u8 & (1u8 << p))) & (1u8 << p) == 1u8 << p,
        1u8 << p != 0,
{
}

proof fn lemma_u8_flag_apart(b: u8, p: u8, q: u8)
    by (bit_vector)
    requires
        p < 8,
        q < 8,
        p != q,
    ensures
        (b | (!0u8 & (1u8 << p))) & (1u8 << q) == b & (1u8 << q),
{
}

proof fn lemma_u8_field_apart(b: u8, p: u8, s: u8, l: u8)
    by (bit_vector)
    requires
        p < 8,
        l < 8,
        s + l <= 8,
        p < s || s + l <= p,
    ensures
        ((b | (!0u8 & (1u8 << p))) >> s) & !(!0u8 << l) == (b >> s) & !(!0u8 << l),
{
}

impl BitOps for u8 {
    open spec fn width() -> nat {
        8
    }

    open spec fn lift(byte: u8) -> u8 {
        byte
    }

    open spec fn inv(self) -> u8 {
        !self
    }

    open spec fn and(self, rhs: u8) -> u8 {
        self & rhs
    }

    open spec fn or(self, rhs: u8) -> u8 {
        self | rhs
    }

    open spec fn shl(self, by: u8) -> u8 {
        self << by
    }

    open spec fn shr(self, by: u8) -> u8 {
        self >> by
    }

    fn from_byte(byte: u8) -> u8 {
        byte
    }

    fn not(self) -> u8 {
        !self
    }

    fn bitand(self, rhs: u8) -> u8 {
        self & rhs
    }

    fn bitor(self, rhs: u8) -> u8 {
        self | rhs
    }

    fn shift_left(self, by: u8) -> u8 {
        self << by
    }

    fn shift_right(self, by: u8) -> u8 {
        self >> by
    }

    proof fn lemma_field_written(packed: u8, value: u8, start: u8, len: u8) {
        lemma_u8_unpack_packed(packed, value, start, len);
    }

    proof fn lemma_field_kept(
        packed: u8,
        value: u8,
        start: u8,
        len: u8,
        other_start: u8,
        other_len: u8,
    ) {
        lemma_u8_unpack_other(packed, value, start, len, other_start, other_len);
    }

    proof fn lemma_flag_kept(packed: u8, value: u8, start: u8, len: u8, pos: u8) {
        lemma_u8_flag_other(packed, value, start, len, pos);
    }

    proof fn lemma_flag_raised(flags: u8, pos: u8) {
        lemma_u8_flag_raised(flags, pos);
    }

    proof fn lemma_flag_apart(flags: u8, pos: u8, other: u8) {
        lemma_u8_flag_apart(flags, pos, other);
    }

    proof fn lemma_field_apart(flags: u8, pos: u8, start: u8, len: u8) {
        lemma_u8_field_apart(flags, pos, start, len);
    }
}

proof fn lemma_usize_unpack_packed(b: usize, v: usize, s: u8, l: u8)
    by (bit_vector)
    requires
        l < usize::BITS,
        s + l <= usize::BITS,
    ensures
        (((b & !(!(!0usize << l) << s)) | ((v << s) & (!(!0usize << l) << s))) >> s) & !(!0usize
            << l) == v & !(!0usize << l),
{
}

proof fn lemma_usize_unpack_other(b: usize, v: usize, s: u8, l: u8, t: u8, m: u8)
    by (bit_vector)
    requires
        l < usize::BITS,
        s + l <= usize::BITS,
        m < usize::BITS,
        t + m <= usize::BITS,
        t + m <= s || s + l <= t,
    ensures
        (((b & !(!(!0usize << l) << s)) | ((v << s) & (!(!0usize << l) << s))) >> t) & !(!0usize
            << m) == (b >> t) & !(!0usize << m),
{
}

proof fn lemma_usize_flag_other(b: usize, v: usize, s: u8, l: u8, p: u8)
    by (bit_vector)
    requires
        l < usize::BITS,
        s + l <= usize::BITS,
        p < usize::BITS,
        p < s || s + l <= p,
    ensures
        ((b & !(!(!0usize << l) << s)) | ((v << s) & (!(!0usize << l) << s))) & (1usize << p) == b
            & (1usize << p),
{
}

proof fn lemma_usize_flag_raised(b: usize, p: u8)
    by (bit_vector)
    requires
        p < usize::BITS,
    ensures
        (b | (!0usize & (1usize << p))) & (1usize << p) == 1usize << p,
        1usize << p != 0,
{
}

proof fn lemma_usize_flag_apart(b: usize, p: u8, q: u8)
    by (bit_vector)
    requires
        p < usize::BITS,
        q < usize::BITS,
        p != q,
    ensures
        (b | (!0usize & (1usize << p))) & (1usize << q) == b & (1usize << q),
{
}

proof fn lemma_usize_field_apart(b: usize, p: u8, s: u8, l: u8)
    by (bit_vector)
    requires
        p < usize::BITS,
        l < usize::BITS,
        s + l <= usize::BITS,
        p < s || s + l <= p,
    ensures
        ((b | (!0usize & (1usize << p))) >> s) & !(!0usize << l) == (b >> s) & !(!0usize << l),
{
}

impl BitOps for usize {
    open spec fn width() -> nat {
        usize::BITS as nat
    }

    open spec fn lift(byte: u8) -> usize {
        byte as usize
    }

    open spec fn inv(self) -> usize {
        !self
    }

    open spec fn and(self, rhs: usize) -> usize {
        self & rhs
    }

    open spec fn or(self, rhs: usize) -> usize {
        self | rhs
    }

    open spec fn shl(self, by: u8) -> usize {
        self << by
    }

    open spec fn shr(self, by: u8) -> usize {
        self >> by
    }

    fn from_byte(byte: u8) -> usize {
        byte as usize
    }

    fn not(self) -> usize {
        !self
    }

    fn bitand(self, rhs: usize) -> usize {
        self & rhs
    }

    fn bitor(self, rhs: usize) -> usize {
        self | rhs
    }

    fn shift_left(self, by: u8) -> usize {
        self << by
    }

    fn shift_right(self, by: u8) -> usize {
        self >> by
    }

    proof fn lemma_field_written(packed: usize, value: usize, start: u8, len: u8) {
        lemma_usize_unpack_packed(packed, value, start, len);
    }

    proof fn lemma_field_kept(
        packed: usize,
        value: usize,
        start: u8,
        len: u8,
        other_start: u8,
        other_len: u8,
    ) {
        lemma_usize_unpack_other(packed, value, start, len, other_start, other_len);
    }

    proof fn lemma_flag_kept(packed: usize, value: usize, start: u8, len: u8, pos: u8) {
        lemma_usize_flag_other(packed, value, start, len, pos);
    }

    proof fn lemma_flag_raised(flags: usize, pos: u8) {
        lemma_usize_flag_raised(flags, pos);
    }

    proof fn lemma_flag_apart(flags: usize, pos: u8, other: u8) {
        lemma_usize_flag_apart(flags, pos, other);
    }

    proof fn lemma_field_apart(flags: usize, pos: u8, start: u8, len: u8) {
        lemma_usize_field_apart(flags, pos, start, len);
    }
}

} // verus!
