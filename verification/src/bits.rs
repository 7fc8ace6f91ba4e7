//! Single-bit and population-count reasoning over the 32-bit board masks.

use vstd::prelude::*;

verus! {

/// True when bit `i` of `x` is set.
pub open spec fn bit32(x: u32, i: u32) -> bool
    recommends
        i < 32,
{
    (x >> i) & 1u32 == 1u32
}

/// Number of set bits among the low `n` bits of `x`.
pub open spec fn pop_upto(x: u32, n: nat) -> nat
    recommends
        n <= 32,
    decreases n,
{
    if n == 0 {
        0
    } else {
        pop_upto(x, (n - 1) as nat) + if bit32(x, (n - 1) as u32) {
            1nat
        } else {
            0nat
        }
    }
}

/// Number of set bits of `x`.
pub open spec fn pop32(x: u32) -> nat {
    pop_upto(x, 32)
}

/// Two words that agree on every bit below `n` have the same count there.
pub proof fn lemma_pop_congruent(x: u32, y: u32, n: nat)
    requires
        n <= 32,
        forall|i: u32| i < n ==> bit32(x, i) == bit32(y, i),
    ensures
        pop_upto(x, n) == pop_upto(y, n),
    decreases n,
{
    if n > 0 {
        lemma_pop_congruent(x, y, (n - 1) as nat);
    }
}

/// Changing a single bit changes the count by exactly that bit's weight.
pub proof fn lemma_pop_change_one(x: u32, y: u32, j: u32, n: nat)
    requires
        n <= 32,
        j < n,
        forall|i: u32| i < n && i != j ==> bit32(x, i) == bit32(y, i),
    ensures
        pop_upto(y, n) + if bit32(x, j) { 1nat } else { 0nat } == pop_upto(x, n) + if bit32(
            y,
            j,
        ) {
            1nat
        } else {
            0nat
        },
    decreases n,
{
    if j == n - 1 {
        lemma_pop_congruent(x, y, (n - 1) as nat);
    } else {
        lemma_pop_change_one(x, y, j, (n - 1) as nat);
    }
}

/// Counts the set bits of `x`.
pub fn count_bits(x: u32) -> (r: u32)
    ensures
        r == pop32(x),
{
    let mut r: u32 = 0;
    let mut i: u32 = 0;
    while i < 32
        invariant
            i <= 32,
            r <= i,
            r == pop_upto(x, i as nat),
        decreases 32 - i,
    {
        let b = (x >> i) & 1;
        assert((x >> i) & 1u32 <= 1u32) by (bit_vector);
        assert(b == 1 <==> bit32(x, i));
        r = r + b;
        i = i + 1;
    }
    r
}


/// At most `n` bits are set below `n`.
pub proof fn lemma_pop_upto_le(x: u32, n: nat)
    requires
        n <= 32,
    ensures
        pop_upto(x, n) <= n,
    decreases n,
{
    if n > 0 {
        lemma_pop_upto_le(x, (n - 1) as nat);
    }
}

/// A 32-bit word has at most 32 set bits.
pub proof fn lemma_pop32_le(x: u32)
    ensures
        pop32(x) <= 32,
{
    lemma_pop_upto_le(x, 32);
}

} // verus!
