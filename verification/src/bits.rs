//! Machine words read as sets of bit positions.
//!
//! Flags and packed fields are stored in bytes and words; their contracts
//! speak of the positions that are set. The lemmas here carry each bitwise
//! operator over to the matching operation on sets.

use vstd::prelude::*;

verus! {

/// Whether bit `i` of `word` is set. No position outside `0..32` is.
pub open spec fn bit(word: u32, i: int) -> bool {
    0 <= i < 32 && (word >> (i as u32)) & 1 == 1
}

/// The positions of `word` that are set.
pub open spec fn positions(word: u32) -> Set<int> {
    Set::new(|i: int| bit(word, i))
}

/// The word with exactly bit `k` set.
pub open spec fn single(k: u32) -> u32
    recommends
        k < 32,
{
    1u32 << k
}

/// No bit of zero is set.
pub proof fn lemma_positions_zero()
    ensures
        positions(0) == Set::<int>::empty(),
{
    assert forall|i: int| !bit(0, i) by {
        if 0 <= i < 32 {
            let k = i as u32;
            assert((0u32 >> k) & 1 == 0) by (bit_vector);
        }
    }
    assert(positions(0) =~= Set::<int>::empty());
}

/// `1 << k` has bit `k` set and no other.
pub proof fn lemma_positions_single(k: u32)
    requires
        k < 32,
    ensures
        positions(single(k)) == set![k as int],
{
    assert forall|i: int| bit(single(k), i) == (i == k) by {
        if 0 <= i < 32 {
            let j = i as u32;
            assert(((1u32 << k) >> j) & 1 == 1 <==> j == k) by (bit_vector)
                requires
                    k < 32,
                    j < 32,
            ;
        }
    }
    assert(positions(single(k)) =~= set![k as int]);
}

/// Bitwise or is union.
pub proof fn lemma_positions_or(a: u32, b: u32)
    ensures
        positions(a | b) == positions(a).union(positions(b)),
{
    assert forall|i: int| bit(a | b, i) == (bit(a, i) || bit(b, i)) by {
        if 0 <= i < 32 {
            let k = i as u32;
            assert(((a | b) >> k) & 1 == 1 <==> ((a >> k) & 1 == 1 || (b >> k) & 1 == 1))
                by (bit_vector);
        }
    }
    assert(positions(a | b) =~= positions(a).union(positions(b)));
}

/// Bitwise and is intersection.
pub proof fn lemma_positions_and(a: u32, b: u32)
    ensures
        positions(a & b) == positions(a).intersect(positions(b)),
{
    assert forall|i: int| bit(a & b, i) == (bit(a, i) && bit(b, i)) by {
        if 0 <= i < 32 {
            let k = i as u32;
            assert(((a & b) >> k) & 1 == 1 <==> ((a >> k) & 1 == 1 && (b >> k) & 1 == 1))
                by (bit_vector);
        }
    }
    assert(positions(a & b) =~= positions(a).intersect(positions(b)));
}

/// Masking out `b` is set difference.
pub proof fn lemma_positions_and_not(a: u32, b: u32)
    ensures
        positions(a & !b) == positions(a).difference(positions(b)),
{
    assert forall|i: int| bit(a & !b, i) == (bit(a, i) && !bit(b, i)) by {
        if 0 <= i < 32 {
            let k = i as u32;
            assert(((a & !b) >> k) & 1 == 1 <==> ((a >> k) & 1 == 1 && !((b >> k) & 1 == 1)))
                by (bit_vector);
        }
    }
    assert(positions(a & !b) =~= positions(a).difference(positions(b)));
}

/// Bitwise exclusive or is symmetric difference.
pub proof fn lemma_positions_xor(a: u32, b: u32)
    ensures
        positions(a ^ b) == positions(a).difference(positions(b)).union(
            positions(b).difference(positions(a)),
        ),
{
    assert forall|i: int| bit(a ^ b, i) == (bit(a, i) != bit(b, i)) by {
        if 0 <= i < 32 {
            let k = i as u32;
            assert(((a ^ b) >> k) & 1 == 1 <==> (((a >> k) & 1 == 1) != ((b >> k) & 1 == 1)))
                by (bit_vector);
        }
    }
    assert(positions(a ^ b) =~= positions(a).difference(positions(b)).union(
        positions(b).difference(positions(a)),
    ));
}

/// Two words with the same positions set agree on all bits from position 0
/// up to position `31 - shift`.
proof fn lemma_low_bits_agree(a: u32, b: u32, shift: u32)
    requires
        positions(a) == positions(b),
        shift <= 31,
    ensures
        a << shift == b << shift,
    decreases 31 - shift,
{
    let k = (31 - shift) as u32;
    assert(bit(a, k as int) == positions(a).contains(k as int));
    assert(bit(b, k as int) == positions(b).contains(k as int));
    if shift == 31 {
        assert(a << shift == b << shift) by (bit_vector)
            requires
                shift == 31,
                k == 0,
                (a >> k) & 1 == 1 <==> (b >> k) & 1 == 1,
        ;
    } else {
        let next = (shift + 1) as u32;
        lemma_low_bits_agree(a, b, next);
        assert(a << shift == b << shift) by (bit_vector)
            requires
                shift < 31,
                next == shift + 1,
                k == 31 - shift,
                a << next == b << next,
                (a >> k) & 1 == 1 <==> (b >> k) & 1 == 1,
        ;
    }
}

/// A word is determined by the positions that are set in it.
pub proof fn lemma_positions_injective(a: u32, b: u32)
    requires
        positions(a) == positions(b),
    ensures
        a == b,
{
    lemma_low_bits_agree(a, b, 0);
    assert(a == b) by (bit_vector)
        requires
            a << 0u32 == b << 0u32,
    ;
}

/// Only zero has no bit set.
pub proof fn lemma_positions_empty(a: u32)
    ensures
        positions(a) == Set::<int>::empty() <==> a == 0,
{
    lemma_positions_zero();
    if positions(a) == Set::<int>::empty() {
        lemma_positions_injective(a, 0);
    }
}

/// `a & b == b` says that every bit of `b` is set in `a`.
pub proof fn lemma_positions_subset(a: u32, b: u32)
    ensures
        a & b == b <==> positions(b).subset_of(positions(a)),
{
    lemma_positions_and(a, b);
    if positions(b).subset_of(positions(a)) {
        assert(positions(a & b) =~= positions(b));
        lemma_positions_injective(a & b, b);
    }
}

/// `a | b == b` says that every bit of `a` is set in `b`.
pub proof fn lemma_positions_superset(a: u32, b: u32)
    ensures
        a | b == b <==> positions(a).subset_of(positions(b)),
{
    lemma_positions_or(a, b);
    if positions(a).subset_of(positions(b)) {
        assert(positions(a | b) =~= positions(b));
        lemma_positions_injective(a | b, b);
    }
}

/// `a & b == 0` says that `a` and `b` share no bit.
pub proof fn lemma_positions_disjoint(a: u32, b: u32)
    ensures
        a & b == 0 <==> positions(a).disjoint(positions(b)),
{
    lemma_positions_and(a, b);
    lemma_positions_empty(a & b);
    if positions(a).disjoint(positions(b)) {
        assert(positions(a & b) =~= Set::<int>::empty());
    }
    if a & b == 0 {
        assert(positions(a).intersect(positions(b)) =~= Set::<int>::empty());
        assert forall|i: int| !(positions(a).contains(i) && positions(b).contains(i)) by {
            assert(!positions(a).intersect(positions(b)).contains(i));
        }
    }
}

/// The values of the eight lowest single-bit words.
pub proof fn lemma_single_values()
    ensures
        single(0) == 1,
        single(1) == 2,
        single(2) == 4,
        single(3) == 8,
        single(4) == 16,
        single(5) == 32,
        single(6) == 64,
        single(7) == 128,
{
    assert(1u32 << 0u32 == 1 && 1u32 << 1u32 == 2 && 1u32 << 2u32 == 4 && 1u32 << 3u32 == 8
        && 1u32 << 4u32 == 16 && 1u32 << 5u32 == 32 && 1u32 << 6u32 == 64 && 1u32 << 7u32 == 128)
        by (bit_vector);
}

/// Masking out `b` from a byte is set difference, as it is on a word.
pub proof fn lemma_byte_and_not(a: u8, b: u8)
    ensures
        positions((a & !b) as u32) == positions(a as u32).difference(positions(b as u32)),
{
    assert((a & !b) as u32 == (a as u32) & !(b as u32)) by (bit_vector);
    lemma_positions_and_not(a as u32, b as u32);
}

/// A byte has no bit set at or above position 8.
pub proof fn lemma_positions_byte(b: u8)
    ensures
        forall|i: int| #[trigger] bit(b as u32, i) ==> 0 <= i < 8,
{
    assert forall|i: int| #[trigger] bit(b as u32, i) implies 0 <= i < 8 by {
        if 8 <= i < 32 {
            let k = i as u32;
            assert(((b as u32) >> k) & 1 == 0) by (bit_vector)
                requires
                    8 <= k < 32,
            ;
        }
    }
}

} // verus!
