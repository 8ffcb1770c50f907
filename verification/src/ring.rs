//! Circular addressing: where a run of samples lands in a buffer that wraps.

use vstd::prelude::*;
use vstd::arithmetic::div_mod::{
    lemma_fundamental_div_mod,
    lemma_fundamental_div_mod_converse,
};

verus! {

/// The slot of a buffer of `size` slots that index `i` of a run starting at
/// `offset` lands on.
pub open spec fn landing(offset: int, i: int, size: int) -> int {
    (offset + i) % size
}

/// The first index of a run starting at `offset` that lands on `slot` of a
/// buffer of `size` slots.
pub open spec fn first_hit(slot: int, offset: int, size: int) -> int {
    (slot - offset) % size
}

/// The last index below `count` that lands on the same slot as `first`.
pub open spec fn last_hit(first: int, size: int, count: int) -> int {
    first + size * ((count - 1 - first) / size)
}

/// The buffer after `samples` were written into it one by one, the sample of
/// index `i` into slot `landing(offset, i, buffer.len())`. A slot that several
/// samples land on keeps the last of them; a slot that none lands on keeps
/// what it held. An empty buffer stays empty.
pub open spec fn written<S>(buffer: Seq<S>, offset: int, samples: Seq<S>) -> Seq<S> {
    Seq::new(
        buffer.len(),
        |slot: int|
            {
                let first = first_hit(slot, offset, buffer.len() as int);
                if first < samples.len() {
                    samples[last_hit(first, buffer.len() as int, samples.len() as int)]
                } else {
                    buffer[slot]
                }
            },
    )
}

/// The slot after `(x % size)` in a circle of `size` slots.
pub proof fn lemma_next_slot(x: int, size: int)
    requires
        0 < size,
    ensures
        (x + 1) % size == if x % size + 1 == size {
            0
        } else {
            x % size + 1
        },
{
    lemma_fundamental_div_mod(x, size);
    let q = x / size;
    let r = x % size;
    if r + 1 == size {
        assert(x + 1 == (q + 1) * size + 0) by (nonlinear_arith)
            requires
                x == size * q + r,
                r + 1 == size,
        ;
        lemma_fundamental_div_mod_converse(x + 1, size, q + 1, 0);
    } else {
        assert(x + 1 == q * size + (r + 1)) by (nonlinear_arith)
            requires
                x == size * q + r,
        ;
        lemma_fundamental_div_mod_converse(x + 1, size, q, r + 1);
    }
}

/// Index `i` of a run starting at `offset` lands on a slot whose first hit
/// is `i % size`.
pub proof fn lemma_first_hit_of_index(offset: int, i: int, size: int)
    requires
        0 < size,
    ensures
        first_hit((offset + i) % size, offset, size) == i % size,
{
    lemma_fundamental_div_mod(offset + i, size);
    lemma_fundamental_div_mod(i, size);
    let q = (offset + i) / size;
    let slot = (offset + i) % size;
    let qi = i / size;
    let ri = i % size;
    assert(slot - offset == (qi - q) * size + ri) by (nonlinear_arith)
        requires
            offset + i == size * q + slot,
            i == size * qi + ri,
    ;
    lemma_fundamental_div_mod_converse(slot - offset, size, qi - q, ri);
}

/// A slot lies at its first hit from the offset.
pub proof fn lemma_slot_of_first_hit(slot: int, offset: int, size: int)
    requires
        0 <= slot < size,
    ensures
        0 <= first_hit(slot, offset, size) < size,
        (offset + first_hit(slot, offset, size)) % size == slot,
{
    lemma_fundamental_div_mod(slot - offset, size);
    let q = (slot - offset) / size;
    let r = (slot - offset) % size;
    assert(offset + r == (-q) * size + slot) by (nonlinear_arith)
        requires
            slot - offset == size * q + r,
    ;
    lemma_fundamental_div_mod_converse(offset + r, size, -q, slot);
}

/// The last hit below `count` of a first hit `first < count` is the one
/// index in `[count - size, count)` that is congruent to `first`.
pub proof fn lemma_last_hit_bounds(first: int, size: int, count: int)
    requires
        0 < size,
        0 <= first < size,
        first < count,
    ensures
        first <= last_hit(first, size, count) < count,
        count - size <= last_hit(first, size, count),
        last_hit(first, size, count) % size == first,
{
    let a = count - 1 - first;
    lemma_fundamental_div_mod(a, size);
    let q = a / size;
    let r = a % size;
    assert(0 <= q) by (nonlinear_arith)
        requires
            a == size * q + r,
            0 <= a,
            0 <= r < size,
            0 < size,
    ;
    assert(0 <= size * q) by (nonlinear_arith)
        requires
            0 <= q,
            0 < size,
    ;
    assert(first + size * q == q * size + first) by (nonlinear_arith);
    lemma_fundamental_div_mod_converse(first + size * q, size, q, first);
}

/// An index `i < count` with `i + size >= count` is the last hit of its own
/// slot.
pub proof fn lemma_last_hit_of_late_index(i: int, size: int, count: int)
    requires
        0 < size,
        0 <= i < count,
        count <= i + size,
    ensures
        last_hit(i % size, size, count) == i,
{
    lemma_fundamental_div_mod(i, size);
    let first = i % size;
    lemma_last_hit_bounds(first, size, count);
    let l = last_hit(first, size, count);
    let ql = (count - 1 - first) / size;
    let qi = i / size;
    // l and i are congruent and less than `size` apart
    assert(ql == qi) by (nonlinear_arith)
        requires
            l == first + size * ql,
            i == size * qi + first,
            count - size <= l < count,
            count - size <= i < count,
            0 < size,
    ;
}

/// A slot other than the one that index `k` lands on has a first hit other
/// than `k % size`.
pub proof fn lemma_first_hit_elsewhere(slot: int, offset: int, k: int, size: int)
    requires
        0 <= slot < size,
        slot != landing(offset, k, size),
    ensures
        first_hit(slot, offset, size) != k % size,
{
    let first = first_hit(slot, offset, size);
    lemma_slot_of_first_hit(slot, offset, size);
    if first == k % size {
        lemma_fundamental_div_mod_converse(first, size, 0, first);
        lemma_same_slot(k, first, offset, size);
    }
}

/// Counting one more index does not move the last hit of a slot that the
/// index does not land on.
pub proof fn lemma_last_hit_steady(first: int, size: int, k: int)
    requires
        0 <= first < size,
        first < k,
        first != k % size,
    ensures
        last_hit(first, size, k + 1) == last_hit(first, size, k),
{
    let a = k - first;
    lemma_fundamental_div_mod(a, size);
    let q = a / size;
    let r = a % size;
    if r == 0 {
        assert(k == q * size + first) by (nonlinear_arith)
            requires
                k - first == size * q + r,
                r == 0,
        ;
        lemma_fundamental_div_mod_converse(k, size, q, first);
    }
    assert(a - 1 == q * size + (r - 1)) by (nonlinear_arith)
        requires
            a == size * q + r,
    ;
    lemma_fundamental_div_mod_converse(a - 1, size, q, r - 1);
}

/// Writing one more sample changes exactly the slot that it lands on.
pub proof fn lemma_written_step<S>(buffer: Seq<S>, offset: int, samples: Seq<S>, k: int)
    requires
        0 <= k < samples.len(),
        0 < buffer.len(),
    ensures
        written(buffer, offset, samples.take(k + 1)) == written(
            buffer,
            offset,
            samples.take(k),
        ).update(landing(offset, k, buffer.len() as int), samples[k]),
{
    let size = buffer.len() as int;
    let target = landing(offset, k, size);
    let before = written(buffer, offset, samples.take(k));
    let after = written(buffer, offset, samples.take(k + 1));
    lemma_fundamental_div_mod(offset + k, size);
    lemma_fundamental_div_mod(k, size);
    assert forall|slot: int| 0 <= slot < size implies after[slot] == before.update(
        target,
        samples[k],
    )[slot] by {
        let first = first_hit(slot, offset, size);
        lemma_slot_of_first_hit(slot, offset, size);
        if slot == target {
            lemma_first_hit_of_index(offset, k, size);
            lemma_last_hit_of_late_index(k, size, k + 1);
        } else {
            lemma_first_hit_elsewhere(slot, offset, k, size);
            if first < k {
                lemma_last_hit_steady(first, size, k);
                lemma_last_hit_bounds(first, size, k);
            } else if first == k {
                lemma_fundamental_div_mod_converse(k, size, 0, k);
            }
        }
    }
    assert(after =~= before.update(target, samples[k]));
}

/// Writing never changes the buffer's length.
pub proof fn lemma_written_len<S>(buffer: Seq<S>, offset: int, samples: Seq<S>)
    ensures
        written(buffer, offset, samples).len() == buffer.len(),
{
}

/// After a write, the slot that sample `i` landed on reads back as that
/// sample, unless a later sample of the same write landed there too: that
/// is, for every `i` within the last `buffer.len()` samples. A write no
/// longer than the buffer therefore reads back whole and in order, starting
/// at slot `offset % buffer.len()` and wrapping.
pub proof fn lemma_written_reads_back<S>(buffer: Seq<S>, offset: int, samples: Seq<S>, i: int)
    requires
        0 <= i < samples.len(),
        samples.len() <= i + buffer.len(),
    ensures
        written(buffer, offset, samples)[landing(offset, i, buffer.len() as int)] == samples[i],
{
    let size = buffer.len() as int;
    lemma_fundamental_div_mod(offset + i, size);
    lemma_fundamental_div_mod(i, size);
    lemma_first_hit_of_index(offset, i, size);
    lemma_last_hit_of_late_index(i, size, samples.len() as int);
}

/// After a write, a slot that no sample landed on holds what it held
/// before.
pub proof fn lemma_written_keeps_the_rest<S>(
    buffer: Seq<S>,
    offset: int,
    samples: Seq<S>,
    slot: int,
)
    requires
        0 <= slot < buffer.len(),
        forall|i: int|
            0 <= i < samples.len() ==> #[trigger] landing(offset, i, buffer.len() as int) != slot,
    ensures
        written(buffer, offset, samples)[slot] == buffer[slot],
{
    let size = buffer.len() as int;
    let first = first_hit(slot, offset, size);
    lemma_slot_of_first_hit(slot, offset, size);
    assert(landing(offset, first, size) == slot);
}

/// Writing nothing changes nothing.
pub proof fn lemma_written_nothing<S>(buffer: Seq<S>, offset: int)
    ensures
        written(buffer, offset, Seq::<S>::empty()) == buffer,
{
    assert forall|slot: int| 0 <= slot < buffer.len() implies written(
        buffer,
        offset,
        Seq::<S>::empty(),
    )[slot] == buffer[slot] by {
        lemma_slot_of_first_hit(slot, offset, buffer.len() as int);
    }
    assert(written(buffer, offset, Seq::<S>::empty()) =~= buffer);
}

/// Two positions that are congruent stay congruent when both move on by
/// `i`.
pub proof fn lemma_same_slot(x: int, y: int, i: int, size: int)
    requires
        0 < size,
        x % size == y % size,
    ensures
        (x + i) % size == (y + i) % size,
{
    lemma_fundamental_div_mod(x, size);
    lemma_fundamental_div_mod(y, size);
    lemma_fundamental_div_mod(y + i, size);
    let qx = x / size;
    let qy = y / size;
    let q = (y + i) / size;
    let r = (y + i) % size;
    assert(x + i == (qx - qy + q) * size + r) by (nonlinear_arith)
        requires
            x == size * qx + x % size,
            y == size * qy + y % size,
            x % size == y % size,
            y + i == size * q + r,
    ;
    lemma_fundamental_div_mod_converse(x + i, size, qx - qy + q, r);
}

} // verus!
