//! Bit masks: membership, insertion and counting.

use vstd::prelude::*;

verus! {

/// Whether bit `i` of `mask` is set.
pub open spec fn has_bit(mask: u64, i: u64) -> bool {
    (mask >> i) & 1 == 1
}

/// Whether bit `i` of `mask` is set.
pub fn test_bit(mask: u64, i: u64) -> (b: bool)
    requires
        i < 64,
    ensures
        b == has_bit(mask, i),
{
    (mask >> i) & 1 == 1
}

/// `mask` with bit `i` set.
pub fn with_bit(mask: u64, i: u64) -> (m: u64)
    requires
        i < 64,
    ensures
        forall|j: u64| j < 64 ==> has_bit(m, j) == (j == i || has_bit(mask, j)),
        m == mask | (1u64 << i),
{
    let m = mask | (1u64 << i);
    assert forall|j: u64| j < 64 implies has_bit(m, j) == (j == i || has_bit(mask, j)) by {
        lemma_with_bit(mask, i, j);
    }
    m
}

/// Setting bit `i` sets that bit and no other.
pub proof fn lemma_with_bit(mask: u64, i: u64, j: u64)
    requires
        i < 64,
        j < 64,
    ensures
        has_bit(mask | (1u64 << i), j) == (j == i || has_bit(mask, j)),
{
    assert(((mask | (1u64 << i)) >> j) & 1 == 1 <==> (j == i || (mask >> j) & 1 == 1))
        by (bit_vector)
        requires
            i < 64,
            j < 64,
    ;
}

/// The empty mask has no bit set.
pub proof fn lemma_no_bit(j: u64)
    requires
        j < 64,
    ensures
        !has_bit(0, j),
{
    assert((0u64 >> j) & 1 != 1) by (bit_vector);
}

/// A union holds the bits of both sides.
pub proof fn lemma_union_bit(a: u64, b: u64, j: u64)
    requires
        j < 64,
    ensures
        has_bit(a | b, j) == (has_bit(a, j) || has_bit(b, j)),
{
    assert((((a | b) >> j) & 1 == 1) <==> (((a >> j) & 1 == 1) || ((b >> j) & 1 == 1)))
        by (bit_vector);
}

/// The number of bits set in `mask`.
pub open spec fn count_bits(mask: u64) -> nat
    decreases mask,
{
    if mask == 0 {
        0
    } else {
        (mask % 2) as nat + count_bits(mask / 2)
    }
}

/// No mask holds more than 64 bits.
pub proof fn lemma_count_bits_bound(mask: u64)
    ensures
        count_bits(mask) <= 64,
{
    lemma_two_to_64();
    lemma_count_bits_below(mask, 64);
}

/// The power of two with exponent `n`.
pub open spec fn two_to(n: nat) -> nat
    decreases n,
{
    if n == 0 {
        1
    } else {
        2 * two_to((n - 1) as nat)
    }
}

proof fn lemma_two_to_64()
    ensures
        two_to(64) == 0x1_0000_0000_0000_0000,
{
    reveal_with_fuel(two_to, 65);
}

proof fn lemma_count_bits_below(mask: u64, n: nat)
    requires
        mask < two_to(n),
    ensures
        count_bits(mask) <= n,
    decreases n,
{
    if mask != 0 {
        lemma_count_bits_below(mask / 2, (n - 1) as nat);
    }
}

/// Counts the bits set in `mask`.
pub fn popcount(mask: u64) -> (n: u32)
    ensures
        n == count_bits(mask),
        n <= 64,
{
    let mut rest: u64 = mask;
    let mut n: u32 = 0;
    proof {
        lemma_count_bits_bound(mask);
    }
    while rest != 0
        invariant
            n + count_bits(rest) == count_bits(mask),
            count_bits(mask) <= 64,
        decreases rest,
    {
        if rest % 2 == 1 {
            n = n + 1;
        }
        rest = rest / 2;
    }
    n
}

} // verus!
