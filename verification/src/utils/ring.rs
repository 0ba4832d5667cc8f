//! Index arithmetic on a ring of slots.

use vstd::prelude::*;

verus! {

/// The index after `index` on a ring of `len` slots.
pub open spec fn next_index(index: usize, len: usize) -> usize
    recommends
        index < len,
{
    if index + 1 == len {
        0
    } else {
        (index + 1) as usize
    }
}

/// The index before `index` on a ring of `len` slots.
pub open spec fn prev_index(index: usize, len: usize) -> usize
    recommends
        index < len,
{
    if index == 0 {
        (len - 1) as usize
    } else {
        (index - 1) as usize
    }
}

/// The ring is full when the tail stands one step behind the head: one slot always stays
/// empty, which tells a full ring from an empty one.
pub open spec fn ring_full(head: usize, tail: usize, len: usize) -> bool
    recommends
        0 < len,
{
    tail == (head + len - 1) % (len as int)
}

/// How many steps lead from `from` round the ring to `to`.
pub open spec fn ring_distance(from: usize, to: usize, len: usize) -> int
    recommends
        from < len,
        to < len,
{
    if from <= to {
        to - from
    } else {
        to + len - from
    }
}

/// The index reached from `from` after `steps` steps round the ring, for fewer steps than
/// the ring has slots.
pub open spec fn ring_at(from: usize, steps: int, len: usize) -> int
    recommends
        from < len,
        0 <= steps < len,
{
    if from + steps < len {
        from + steps
    } else {
        from + steps - len
    }
}

/// On a ring, the next index is the successor modulo the number of slots, and stepping
/// back from it leads to where one came from.
pub proof fn lemma_next_index(index: usize, len: usize)
    requires
        index < len,
    ensures
        next_index(index, len) == (index + 1) % (len as int),
        next_index(index, len) < len,
        prev_index(next_index(index, len), len) == index,
{
    if index + 1 == len {
        vstd::arithmetic::div_mod::lemma_mod_self_0(len as int);
    } else {
        vstd::arithmetic::div_mod::lemma_small_mod((index + 1) as nat, len as nat);
    }
}

/// A ring is full exactly when its tail is one step short of having gone all the way
/// round to its head, that is when `len - 1` slots lie between them.
pub proof fn lemma_ring_full(head: usize, tail: usize, len: usize)
    requires
        head < len,
        tail < len,
    ensures
        ring_full(head, tail, len) <==> next_index(tail, len) == head,
        ring_full(head, tail, len) <==> ring_distance(head, tail, len) == len - 1,
{
    if head == 0 {
        vstd::arithmetic::div_mod::lemma_small_mod((len - 1) as nat, len as nat);
    } else {
        vstd::arithmetic::div_mod::lemma_mod_add_multiples_vanish(head - 1, len as int);
        vstd::arithmetic::div_mod::lemma_small_mod((head - 1) as nat, len as nat);
    }
}

/// The slot that the `count`-th claim of a ring of `len` slots falls on, counting from 0.
pub open spec fn slot_of(count: nat, len: usize) -> usize
    recommends
        0 < len,
{
    (count % (len as nat)) as usize
}

/// Counting on by one is one step round the ring, and counting on by a whole round
/// leads back to the same slot.
pub proof fn lemma_slot_of(count: nat, len: usize)
    requires
        0 < len,
    ensures
        slot_of(count, len) < len,
        next_index(slot_of(count, len), len) == slot_of(count + 1, len),
        slot_of(count + (len as nat), len) == slot_of(count, len),
        count < len ==> slot_of(count, len) == count,
{
    let m = len as int;
    vstd::arithmetic::div_mod::lemma_mod_bound(count as int, m);
    lemma_next_index(slot_of(count, len), len);
    vstd::arithmetic::div_mod::lemma_add_mod_noop(count as int, 1, m);
    vstd::arithmetic::div_mod::lemma_mod_bound(1, m);
    if m == 1 {
        vstd::arithmetic::div_mod::lemma_mod_bound(count as int + 1, m);
    } else {
        vstd::arithmetic::div_mod::lemma_small_mod(1, len as nat);
    }
    vstd::arithmetic::div_mod::lemma_mod_add_multiples_vanish(count as int, m);
    if count < len {
        vstd::arithmetic::div_mod::lemma_small_mod(count, len as nat);
    }
}

/// Two counts less than a round apart that fall on the same slot are the same count.
pub proof fn lemma_same_slot(a: nat, b: nat, len: usize)
    requires
        0 < len,
        a < b + len,
        b < a + len,
        slot_of(a, len) == slot_of(b, len),
    ensures
        a == b,
{
    let m = len as int;
    vstd::arithmetic::div_mod::lemma_mod_bound(a as int, m);
    vstd::arithmetic::div_mod::lemma_mod_bound(b as int, m);
    if a >= b {
        vstd::arithmetic::div_mod::lemma_mod_equivalence(a as int, b as int, m);
        vstd::arithmetic::div_mod::lemma_small_mod((a - b) as nat, len as nat);
    } else {
        vstd::arithmetic::div_mod::lemma_mod_equivalence(b as int, a as int, m);
        vstd::arithmetic::div_mod::lemma_small_mod((b - a) as nat, len as nat);
    }
}

/// From the slot of one count to the slot of a later one, less than a round later, it is
/// as many steps as the counts differ.
pub proof fn lemma_slot_distance(from: nat, to: nat, len: usize)
    requires
        0 < len,
        from <= to < from + len,
    ensures
        ring_distance(slot_of(from, len), slot_of(to, len), len) == to - from,
{
    let m = len as int;
    let start = slot_of(from, len) as int;
    let steps = to - from;
    vstd::arithmetic::div_mod::lemma_mod_bound(from as int, m);
    vstd::arithmetic::div_mod::lemma_add_mod_noop(from as int, steps, m);
    vstd::arithmetic::div_mod::lemma_small_mod(steps as nat, len as nat);
    assert(slot_of(to, len) == (start + steps) % m);
    if start + steps < m {
        vstd::arithmetic::div_mod::lemma_small_mod((start + steps) as nat, len as nat);
    } else {
        vstd::arithmetic::div_mod::lemma_mod_add_multiples_vanish(start + steps - m, m);
        vstd::arithmetic::div_mod::lemma_small_mod((start + steps - m) as nat, len as nat);
    }
}

/// With the head at the `released`-th claim and the tail at the `claimed`-th, at most a
/// round less one apart, the ring is full exactly when they are a round less one apart.
pub proof fn lemma_slot_full(released: nat, claimed: nat, len: usize)
    requires
        0 < len,
        released <= claimed <= released + len - 1,
    ensures
        ring_full(slot_of(released, len), slot_of(claimed, len), len) <==> claimed == released
            + len - 1,
{
    let m = len as int;
    let last = (released + len - 1) as nat;
    vstd::arithmetic::div_mod::lemma_mod_bound(released as int, m);
    vstd::arithmetic::div_mod::lemma_mod_bound(claimed as int, m);
    vstd::arithmetic::div_mod::lemma_add_mod_noop(released as int, len - 1, m);
    vstd::arithmetic::div_mod::lemma_small_mod((len - 1) as nat, len as nat);
    assert(slot_of(last, len) == (slot_of(released, len) + len - 1) % m);
    if slot_of(claimed, len) == slot_of(last, len) {
        lemma_same_slot(claimed, last, len);
    }
}

/// Steps `index` once round a ring of `len` slots.
pub fn step(index: usize, len: usize) -> (r: usize)
    requires
        index < len,
    ensures
        r == next_index(index, len),
        r < len,
        r == (index + 1) % (len as int),
{
    proof {
        lemma_next_index(index, len);
    }
    if index + 1 == len {
        0
    } else {
        index + 1
    }
}

/// Counts the steps from `from` round the ring to `to`.
pub fn distance(from: usize, to: usize, len: usize) -> (r: usize)
    requires
        from < len,
        to < len,
    ensures
        r == ring_distance(from, to, len),
        r < len,
{
    if from <= to {
        to - from
    } else {
        to + (len - from)
    }
}

/// Steps `index` once back on a ring of `len` slots.
pub fn step_back(index: usize, len: usize) -> (r: usize)
    requires
        index < len,
    ensures
        r == prev_index(index, len),
        r < len,
{
    if index == 0 {
        len - 1
    } else {
        index - 1
    }
}

} // verus!
