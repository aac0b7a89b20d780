//! Powers of two: the test, and why a mask reduces modulo one.

use vstd::prelude::*;
use vstd::arithmetic::div_mod::{lemma_mod_multiples_vanish, lemma_small_mod};
use vstd::arithmetic::power2::{
    is_pow2, is_pow2_equiv, lemma2_to64, lemma_pow2_adds, lemma_pow2_pos,
    lemma_pow2_strictly_increases, pow2,
};
use vstd::bits::{lemma_usize_low_bits_mask_is_mod, low_bits_mask};

verus! {

/// The machine word's range is a multiple of every power of two that fits it.
pub proof fn lemma_word_range_multiple(n: usize)
    requires
        is_pow2(n as int),
    ensures
        n > 0,
        (usize::MAX + 1) % (n as int) == 0,
        exists|q: int| q > 0 && #[trigger] (q * n) == usize::MAX + 1,
{
    is_pow2_equiv(n as int);
    let k = choose|k: nat| vstd::arithmetic::power::pow(2, k) == n as int;
    assert(pow2(k) == n);
    lemma_pow2_pos(k);
    lemma2_to64();
    let w: nat = if usize::MAX == 0xffff_ffff {
        32
    } else {
        64
    };
    assert(usize::MAX + 1 == pow2(w));
    if k >= w {
        if k > w {
            lemma_pow2_strictly_increases(w, k);
        }
        assert(false);
    }
    lemma_pow2_adds(k, (w - k) as nat);
    lemma_pow2_pos((w - k) as nat);
    let q = pow2((w - k) as nat) as int;
    assert(q * n == usize::MAX + 1) by (nonlinear_arith)
        requires
            pow2(k) * pow2((w - k) as nat) == pow2(w),
            pow2(k) == n,
            q == pow2((w - k) as nat),
            usize::MAX + 1 == pow2(w),
    ;
    lemma_mod_multiples_vanish(q, 0, n as int);
    assert((n * q + 0) % (n as int) == 0int % (n as int));
    assert(n * q == q * n) by (nonlinear_arith);
    lemma_small_mod(0, n as nat);
}

/// Masking with `n - 1` is reduction modulo `n` when `n` is a power of two.
pub proof fn lemma_mask_is_mod(x: usize, n: usize)
    requires
        is_pow2(n as int),
    ensures
        n > 0,
        x & ((n - 1) as usize) == x % n,
{
    is_pow2_equiv(n as int);
    let k = choose|k: nat| vstd::arithmetic::power::pow(2, k) == n as int;
    assert(pow2(k) == n);
    lemma_pow2_pos(k);
    lemma2_to64();
    let w: nat = if usize::MAX == 0xffff_ffff {
        32
    } else {
        64
    };
    if k >= w {
        if k > w {
            lemma_pow2_strictly_increases(w, k);
        }
        assert(false);
    }
    lemma_usize_low_bits_mask_is_mod(x, k);
    assert(low_bits_mask(k) == n - 1);
}

/// Two to the power of `k` is a power of two.
pub proof fn lemma_pow2_is_pow2(k: nat)
    ensures
        is_pow2(pow2(k) as int),
{
    vstd::arithmetic::power::lemma_pow_positive(2, k);
    is_pow2_equiv(pow2(k) as int);
    assert(vstd::arithmetic::power::pow(2, k) == pow2(k) as int);
}

/// Whether `n` is a power of two.
pub fn is_power_of_two(n: usize) -> (r: bool)
    ensures
        r == is_pow2(n as int),
{
    if n == 0 {
        proof {
            reveal(is_pow2);
        }
        return false;
    }
    let mut m = n;
    while m % 2 == 0
        invariant
            m > 0,
            is_pow2(m as int) == is_pow2(n as int),
        decreases m,
    {
        proof {
            reveal(is_pow2);
        }
        m = m / 2;
    }
    proof {
        reveal(is_pow2);
    }
    m == 1
}

} // verus!
