//! Occupancy bitmaps: one bit per slot, lowest free index first.

use vstd::prelude::*;
use crate::mem::bits::{
    bit_set, count_ones, lemma_full_word, lemma_ones_below_bound, lemma_zero_word,
    lowest_clear_bit, ones_below, test_bit, with_bit_cleared, with_bit_set,
};
use crate::mem::pool::PoolError;

verus! {

/// Number of occupied slots among the first `n` of the occupancy map `s`.
pub open spec fn taken_below(s: Seq<bool>, n: nat) -> nat
    decreases n,
{
    if n == 0 {
        0
    } else {
        taken_below(s, (n - 1) as nat) + if s[n - 1] {
            1nat
        } else {
            0nat
        }
    }
}

/// Number of occupied slots of the occupancy map `s`.
pub open spec fn taken(s: Seq<bool>) -> nat {
    taken_below(s, s.len())
}

/// Every slot of `s` is occupied.
pub open spec fn all_taken(s: Seq<bool>) -> bool {
    forall|j: int| 0 <= j < s.len() ==> s[j]
}

/// `i` is the lowest free slot of `s`.
pub open spec fn lowest_free(s: Seq<bool>, i: int) -> bool {
    &&& 0 <= i < s.len()
    &&& !s[i]
    &&& forall|j: int| 0 <= j < i ==> s[j]
}

/// The occupancy map after one allocation: the lowest free slot becomes
/// occupied, and a full map stays as it is.
pub open spec fn after_alloc(s: Seq<bool>) -> Seq<bool> {
    if all_taken(s) {
        s
    } else {
        s.update(choose|i: int| lowest_free(s, i), true)
    }
}

/// The occupancy map after `k` allocations in a row.
pub open spec fn after_allocs(s: Seq<bool>, k: nat) -> Seq<bool>
    decreases k,
{
    if k == 0 {
        s
    } else {
        after_alloc(after_allocs(s, (k - 1) as nat))
    }
}

/// What freeing slot `index` of the map `s` reports.
pub open spec fn free_outcome(s: Seq<bool>, index: int) -> Result<(), PoolError> {
    if index < 0 || index >= s.len() {
        Err(PoolError::InvalidSlot)
    } else if !s[index] {
        Err(PoolError::DoubleFree)
    } else {
        Ok(())
    }
}

/// The occupancy map after freeing slot `index`: only an occupied slot of
/// the map changes.
pub open spec fn after_free(s: Seq<bool>, index: int) -> Seq<bool> {
    if free_outcome(s, index) is Ok {
        s.update(index, false)
    } else {
        s
    }
}

/// The occupancy map with `n` slots, all free.
pub open spec fn all_free(n: nat) -> Seq<bool> {
    Seq::new(n, |i: int| false)
}

pub proof fn lemma_taken_below_bound(s: Seq<bool>, n: nat)
    ensures
        taken_below(s, n) <= n,
    decreases n,
{
    if n > 0 {
        lemma_taken_below_bound(s, (n - 1) as nat);
    }
}

/// Changing one slot changes the count by the change at that slot.
pub proof fn lemma_taken_below_update(s: Seq<bool>, i: int, v: bool, n: nat)
    requires
        0 <= i < s.len(),
        n <= s.len(),
    ensures
        i >= n ==> taken_below(s.update(i, v), n) == taken_below(s, n),
        i < n && v == s[i] ==> taken_below(s.update(i, v), n) == taken_below(s, n),
        i < n && v && !s[i] ==> taken_below(s.update(i, v), n) == taken_below(s, n) + 1,
        i < n && !v && s[i] ==> taken_below(s.update(i, v), n) + 1 == taken_below(s, n),
    decreases n,
{
    if n > 0 {
        lemma_taken_below_update(s, i, v, (n - 1) as nat);
    }
}

/// A map is full exactly when its count equals its length.
pub proof fn lemma_all_taken_count(s: Seq<bool>, n: nat)
    requires
        n <= s.len(),
    ensures
        taken_below(s, n) == n <==> (forall|j: int| 0 <= j < n ==> s[j]),
    decreases n,
{
    if n > 0 {
        lemma_all_taken_count(s, (n - 1) as nat);
        lemma_taken_below_bound(s, (n - 1) as nat);
        if taken_below(s, n) == n {
            assert forall|j: int| 0 <= j < n implies s[j] by {
                if j < n - 1 {
                } else {
                    assert(s[n - 1]);
                }
            }
        }
    }
}

/// A map that is not full has a lowest free slot, and only one.
pub proof fn lemma_lowest_free_exists(s: Seq<bool>, n: nat) -> (i: int)
    requires
        n <= s.len(),
        exists|j: int| 0 <= j < n && !s[j],
    ensures
        lowest_free(s, i),
        i < n,
    decreases n,
{
    if exists|j: int| 0 <= j < n - 1 && !s[j] {
        lemma_lowest_free_exists(s, (n - 1) as nat)
    } else {
        (n - 1) as int
    }
}

pub proof fn lemma_lowest_free_unique(s: Seq<bool>, i: int, j: int)
    requires
        lowest_free(s, i),
        lowest_free(s, j),
    ensures
        i == j,
{
}

/// What one allocation does to a map that is not full.
pub proof fn lemma_after_alloc(s: Seq<bool>, i: int)
    requires
        lowest_free(s, i),
    ensures
        after_alloc(s) == s.update(i, true),
        taken(after_alloc(s)) == taken(s) + 1,
{
    let c = choose|c: int| lowest_free(s, c);
    lemma_lowest_free_unique(s, i, c);
    assert(!all_taken(s));
    lemma_taken_below_update(s, i, true, s.len());
}

/// The occupancy map of 64 slots that the word `word` stands for: slot `i`
/// is occupied exactly when bit `i` is one.
pub open spec fn word_map(word: u64) -> Seq<bool> {
    Seq::new(64, |i: int| bit_set(word, i as nat))
}

/// One allocation on the occupancy word `word`: the lowest free slot and
/// the word to store, in which that slot is occupied as well, or `None`
/// where the word is full.
pub fn claim_lowest(word: u64) -> (r: Option<(u32, u64)>)
    ensures
        r is None <==> all_taken(word_map(word)),
        r is None <==> word == u64::MAX,
        r matches Some((slot, next)) ==> slot < 64 && lowest_free(word_map(word), slot as int)
            && word_map(next) == after_alloc(word_map(word)),
{
    proof {
        lemma_full_word(word);
    }
    match lowest_clear_bit(word) {
        None => {
            proof {
                assert forall|j: int| 0 <= j < 64 implies word_map(word)[j] by {
                    assert(bit_set(word, j as nat));
                }
            }
            None
        },
        Some(bit) => {
            let next = with_bit_set(word, bit);
            proof {
                let before = word_map(word);
                assert(!before[bit as int]);
                assert forall|j: int| 0 <= j < bit implies before[j] by {
                    assert(bit_set(word, j as nat));
                }
                assert(lowest_free(before, bit as int));
                lemma_after_alloc(before, bit as int);
                assert(word_map(next) =~= before.update(bit as int, true));
            }
            Some((bit, next))
        },
    }
}

/// One release of slot `slot` on the occupancy word `word`: the word to
/// store, in which the slot is free, or `None` where the slot is free
/// already.
pub fn release_bit(word: u64, slot: u32) -> (r: Option<u64>)
    requires
        slot < 64,
    ensures
        r is Some <==> free_outcome(word_map(word), slot as int) is Ok,
        r matches Some(next) ==> word_map(next) == after_free(word_map(word), slot as int),
{
    if test_bit(word, slot) {
        let next = with_bit_cleared(word, slot);
        proof {
            assert(word_map(next) =~= word_map(word).update(slot as int, false));
        }
        Some(next)
    } else {
        None
    }
}

/// A 64-slot occupancy bitmap in one word.
pub struct Bitmap64 {
    bits: u64,
}

impl View for Bitmap64 {
    type V = Seq<bool>;

    /// Slot `i` is occupied exactly when bit `i` of the word is one.
    closed spec fn view(&self) -> Seq<bool> {
        word_map(self.bits)
    }
}

/// The count of ones of a word is the count of occupied slots of its map.
proof fn lemma_word_count(word: u64, s: Seq<bool>, base: nat, n: nat)
    requires
        n <= 64,
        base + 64 <= s.len(),
        forall|j: nat| j < 64 ==> s[(base + j) as int] == bit_set(word, j),
    ensures
        taken_below(s, base + n) == taken_below(s, base) + ones_below(word, n),
    decreases n,
{
    if n > 0 {
        lemma_word_count(word, s, base, (n - 1) as nat);
        assert(s[(base + (n - 1) as nat) as int] == bit_set(word, (n - 1) as nat));
    }
}

impl Bitmap64 {
    /// An empty bitmap.
    pub fn new() -> (r: Self)
        ensures
            r@ == all_free(64),
    {
        let r = Bitmap64 { bits: 0 };
        proof {
            lemma_zero_word();
            assert(r@ =~= all_free(64));
        }
        r
    }

    /// Claims the lowest free slot and returns its index, or `None` when all
    /// 64 are taken.
    pub fn allocate(&mut self) -> (r: Option<usize>)
        ensures
            old(self)@.len() == 64,
            r is None <==> all_taken(old(self)@),
            r matches Some(i) ==> lowest_free(old(self)@, i as int),
            final(self)@ == after_alloc(old(self)@),
    {
        match claim_lowest(self.bits) {
            Some((slot, next)) => {
                self.bits = next;
                Some(slot as usize)
            },
            None => None,
        }
    }

    /// Frees slot `index`.
    pub fn free(&mut self, index: usize) -> (r: Result<(), PoolError>)
        ensures
            old(self)@.len() == 64,
            r == free_outcome(old(self)@, index as int),
            final(self)@ == after_free(old(self)@, index as int),
    {
        if index >= 64 {
            return Err(PoolError::InvalidSlot);
        }
        match release_bit(self.bits, index as u32) {
            Some(next) => {
                self.bits = next;
                Ok(())
            },
            None => Err(PoolError::DoubleFree),
        }
    }

    /// Number of occupied slots.
    pub fn count(&self) -> (r: usize)
        ensures
            self@.len() == 64,
            r == taken(self@),
            r <= 64,
    {
        let n = count_ones(self.bits);
        proof {
            lemma_word_count(self.bits, self@, 0, 64);
            lemma_ones_below_bound(self.bits, 64);
        }
        n as usize
    }

    /// Whether slot `index` is occupied; an index past the last slot is not.
    pub fn is_allocated(&self, index: usize) -> (r: bool)
        ensures
            r == (index < 64 && self@[index as int]),
    {
        if index >= 64 {
            return false;
        }
        test_bit(self.bits, index as u32)
    }
}

/// An occupancy bitmap of `WORDS` words, 64 slots each.
pub struct BitmapLarge<const WORDS: usize> {
    bits: [u64; WORDS],
}

impl<const WORDS: usize> View for BitmapLarge<WORDS> {
    type V = Seq<bool>;

    /// Slot `i` is occupied exactly when bit `i % 64` of word `i / 64` is one.
    closed spec fn view(&self) -> Seq<bool> {
        Seq::new((64 * WORDS) as nat, |i: int| bit_set(self.bits@[i / 64], (i % 64) as nat))
    }
}

impl<const WORDS: usize> BitmapLarge<WORDS> {
    /// The slot indices fit the machine word.
    #[verifier::type_invariant]
    spec fn slots_fit(&self) -> bool {
        64 * WORDS <= usize::MAX
    }

    /// An empty bitmap.
    pub fn new() -> (r: Self)
        requires
            64 * WORDS <= usize::MAX,
        ensures
            r@ == all_free((64 * WORDS) as nat),
    {
        let r = BitmapLarge { bits: [0u64;WORDS] };
        proof {
            lemma_zero_word();
            assert(r@ =~= all_free((64 * WORDS) as nat));
        }
        r
    }

    /// Number of slots.
    pub fn capacity(&self) -> (r: usize)
        ensures
            r == 64 * WORDS,
            r == self@.len(),
    {
        proof {
            use_type_invariant(self);
        }
        64 * WORDS
    }

    /// Claims the lowest free slot and returns its index, or `None` when
    /// every slot is taken. Words are scanned in order.
    pub fn allocate(&mut self) -> (r: Option<usize>)
        ensures
            old(self)@.len() == 64 * WORDS,
            r is None <==> all_taken(old(self)@),
            r matches Some(i) ==> lowest_free(old(self)@, i as int),
            final(self)@ == after_alloc(old(self)@),
    {
        proof {
            use_type_invariant(&*self);
        }
        let mut word_idx: usize = 0;
        while word_idx < WORDS
            invariant
                word_idx <= WORDS,
                64 * WORDS <= usize::MAX,
                *self == *old(self),
                forall|j: int| 0 <= j < 64 * word_idx ==> old(self)@[j],
            decreases WORDS - word_idx,
        {
            let current = self.bits[word_idx];
            proof {
                lemma_full_word(current);
            }
            match lowest_clear_bit(current) {
                Some(bit) => {
                    self.bits[word_idx] = with_bit_set(current, bit);
                    let index = word_idx * 64 + bit as usize;
                    proof {
                        assert(index as int / 64 == word_idx && index as int % 64 == bit);
                        assert(!old(self)@[index as int]);
                        assert forall|j: int| 0 <= j < index implies old(self)@[j] by {
                            if j >= 64 * word_idx {
                                assert(j / 64 == word_idx);
                                assert(bit_set(current, (j % 64) as nat));
                            }
                        }
                        assert(lowest_free(old(self)@, index as int));
                        lemma_after_alloc(old(self)@, index as int);
                        assert(self@ =~= old(self)@.update(index as int, true));
                    }
                    return Some(index);
                },
                None => {
                    proof {
                        assert forall|j: int| 0 <= j < 64 * (word_idx + 1) implies old(self)@[j] by {
                            if j >= 64 * word_idx {
                                assert(j / 64 == word_idx);
                                assert(bit_set(current, (j % 64) as nat));
                            }
                        }
                    }
                },
            }
            word_idx += 1;
        }
        None
    }

    /// Frees slot `index`.
    pub fn free(&mut self, index: usize) -> (r: Result<(), PoolError>)
        ensures
            old(self)@.len() == 64 * WORDS,
            r == free_outcome(old(self)@, index as int),
            final(self)@ == after_free(old(self)@, index as int),
    {
        proof {
            use_type_invariant(&*self);
        }
        let word_idx = index / 64;
        let bit_idx = (index % 64) as u32;
        if word_idx >= WORDS {
            return Err(PoolError::InvalidSlot);
        }
        let current = self.bits[word_idx];
        if !test_bit(current, bit_idx) {
            return Err(PoolError::DoubleFree);
        }
        self.bits[word_idx] = with_bit_cleared(current, bit_idx);
        proof {
            assert(self@ =~= old(self)@.update(index as int, false));
        }
        Ok(())
    }

    /// Number of occupied slots.
    pub fn count(&self) -> (r: usize)
        ensures
            self@.len() == 64 * WORDS,
            r == taken(self@),
            r <= 64 * WORDS,
    {
        proof {
            use_type_invariant(self);
        }
        let mut total: usize = 0;
        let mut word_idx: usize = 0;
        while word_idx < WORDS
            invariant
                word_idx <= WORDS,
                64 * WORDS <= usize::MAX,
                total == taken_below(self@, (64 * word_idx) as nat),
                total <= 64 * word_idx,
            decreases WORDS - word_idx,
        {
            let word = self.bits[word_idx];
            let n = count_ones(word);
            proof {
                assert forall|j: nat| j < 64 implies self@[(64 * word_idx + j) as int] == bit_set(
                    word,
                    j,
                ) by {
                    assert((64 * word_idx + j) as int / 64 == word_idx);
                    assert((64 * word_idx + j) as int % 64 == j);
                }
                lemma_word_count(word, self@, (64 * word_idx) as nat, 64);
                lemma_ones_below_bound(word, 64);
            }
            total = total + n as usize;
            word_idx += 1;
        }
        total
    }

    /// Whether slot `index` is occupied; an index past the last slot is not.
    pub fn is_allocated(&self, index: usize) -> (r: bool)
        ensures
            r == (index < 64 * WORDS && self@[index as int]),
    {
        let word_idx = index / 64;
        if word_idx >= WORDS {
            return false;
        }
        test_bit(self.bits[word_idx], (index % 64) as u32)
    }
}

/// Freeing the same slot twice in a row: the second call reports a double
/// free and leaves the map and its count as the first call left them.
pub proof fn lemma_no_double_free(s: Seq<bool>, index: int)
    requires
        0 <= index < s.len(),
    ensures
        free_outcome(after_free(s, index), index) == Err::<(), PoolError>(PoolError::DoubleFree),
        after_free(after_free(s, index), index) == after_free(s, index),
        taken(after_free(after_free(s, index), index)) == taken(after_free(s, index)),
        s[index] ==> free_outcome(s, index) is Ok && taken(after_free(s, index)) + 1 == taken(s),
{
    lemma_taken_below_update(s, index, false, s.len());
}

} // verus!
