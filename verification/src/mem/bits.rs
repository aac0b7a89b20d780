//! Single-word bit operations that the occupancy bitmaps are built from.

use vstd::prelude::*;
use vstd::std_specs::bits::axiom_u64_trailing_zeros;

verus! {

/// Number of bits in one bitmap word.
pub const WORD_BITS: usize = 64;

/// Whether bit number `bit` of `word` is one. Bits at 64 and above are zero.
pub open spec fn bit_set(word: u64, bit: nat) -> bool {
    bit < 64 && (word >> (bit as u64)) & 1u64 == 1u64
}

/// Number of ones among the lowest `n` bits of `word`.
pub open spec fn ones_below(word: u64, n: nat) -> nat
    decreases n,
{
    if n == 0 {
        0
    } else {
        ones_below(word, (n - 1) as nat) + if bit_set(word, (n - 1) as nat) {
            1nat
        } else {
            0nat
        }
    }
}

/// The zero word has no bit set.
pub proof fn lemma_zero_word()
    ensures
        forall|j: nat| !bit_set(0u64, j),
{
    assert forall|j: nat| !bit_set(0u64, j) by {
        if j < 64 {
            let k = j as u64;
            assert((0u64 >> k) & 1u64 == 0u64) by (bit_vector);
        }
    }
}

/// A full word has every bit set, and only a full word has.
pub proof fn lemma_full_word(word: u64)
    ensures
        word == u64::MAX <==> (forall|j: nat| j < 64 ==> bit_set(word, j)),
{
    if word == u64::MAX {
        assert forall|j: nat| j < 64 implies bit_set(word, j) by {
            let k = j as u64;
            assert((0xffff_ffff_ffff_ffffu64 >> k) & 1u64 == 1u64) by (bit_vector)
                requires
                    k < 64,
            ;
        }
    } else {
        let inv = !word;
        assert(inv != 0) by (bit_vector)
            requires
                inv == !word,
                word != 0xffff_ffff_ffff_ffffu64,
        ;
        axiom_u64_trailing_zeros(inv);
        let b = inv.trailing_zeros() as u64;
        assert((word >> b) & 1u64 == 0u64) by (bit_vector)
            requires
                inv == !word,
                b < 64,
                (inv >> b) & 1u64 == 1u64,
        ;
        assert(!bit_set(word, b as nat));
    }
}

/// Lowest zero bit of `word`, or `None` when the word is full.
pub fn lowest_clear_bit(word: u64) -> (r: Option<u32>)
    ensures
        r is None <==> word == u64::MAX,
        r matches Some(b) ==> b < 64 && !bit_set(word, b as nat) && forall|j: nat|
            j < b ==> bit_set(word, j),
{
    let inv = !word;
    let b = inv.trailing_zeros();
    proof {
        axiom_u64_trailing_zeros(inv);
        assert(inv == 0 <==> word == 0xffff_ffff_ffff_ffffu64) by (bit_vector)
            requires
                inv == !word,
        ;
    }
    if b >= 64 {
        None
    } else {
        proof {
            let bb = b as u64;
            assert((word >> bb) & 1u64 == 0u64) by (bit_vector)
                requires
                    inv == !word,
                    bb < 64,
                    (inv >> bb) & 1u64 == 1u64,
            ;
            assert forall|j: nat| j < b implies bit_set(word, j) by {
                let k = j as u64;
                assert((inv >> k) & 1u64 == 0u64);
                assert((word >> k) & 1u64 == 1u64) by (bit_vector)
                    requires
                        inv == !word,
                        k < 64,
                        (inv >> k) & 1u64 == 0u64,
                ;
            }
        }
        Some(b)
    }
}

/// `word` with bit `bit` set to one.
pub fn with_bit_set(word: u64, bit: u32) -> (r: u64)
    requires
        bit < 64,
    ensures
        forall|j: nat| bit_set(r, j) == (j < 64 && (j == bit || bit_set(word, j))),
{
    let r = word | (1u64 << bit);
    proof {
        let b = bit as u64;
        assert forall|j: nat| bit_set(r, j) == (j < 64 && (j == bit || bit_set(word, j))) by {
            if j < 64 {
                let k = j as u64;
                assert(((word | (1u64 << b)) >> k) & 1u64 == 1u64 <==> (k == b || (word >> k) & 1u64
                    == 1u64)) by (bit_vector)
                    requires
                        k < 64,
                        b < 64,
                ;
            }
        }
    }
    r
}

/// `word` with bit `bit` set to zero.
pub fn with_bit_cleared(word: u64, bit: u32) -> (r: u64)
    requires
        bit < 64,
    ensures
        forall|j: nat| bit_set(r, j) == (j != bit && bit_set(word, j)),
{
    let r = word & !(1u64 << bit);
    proof {
        let b = bit as u64;
        assert forall|j: nat| bit_set(r, j) == (j != bit && bit_set(word, j)) by {
            if j < 64 {
                let k = j as u64;
                assert(((word & !(1u64 << b)) >> k) & 1u64 == 1u64 <==> (k != b && (word >> k)
                    & 1u64 == 1u64)) by (bit_vector)
                    requires
                        k < 64,
                        b < 64,
                ;
            }
        }
    }
    r
}

/// Whether bit `bit` of `word` is one.
pub fn test_bit(word: u64, bit: u32) -> (r: bool)
    requires
        bit < 64,
    ensures
        r == bit_set(word, bit as nat),
{
    let b = bit as u64;
    let r = word & (1u64 << bit) != 0;
    proof {
        assert((word & (1u64 << b) != 0) <==> ((word >> b) & 1u64 == 1u64)) by (bit_vector)
            requires
                b < 64,
        ;
    }
    r
}

/// Calls `u64::count_ones`, which std documents as the number of ones in the
/// binary representation of its argument; the contract says that number is
/// the count of set bits among all 64 positions.
#[verifier::external_body]
pub(crate) fn count_ones(word: u64) -> (r: u32)
    ensures
        r == ones_below(word, 64),
{
    word.count_ones()
}

/// At most `n` of the lowest `n` bits are ones.
pub proof fn lemma_ones_below_bound(word: u64, n: nat)
    ensures
        ones_below(word, n) <= n,
    decreases n,
{
    if n > 0 {
        lemma_ones_below_bound(word, (n - 1) as nat);
    }
}

} // verus!
