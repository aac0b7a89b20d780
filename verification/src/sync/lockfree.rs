//! Lock-free forms of the word-sized structures, for tasks, interrupt
//! handlers and cores that share a structure without exclusive access.
//!
//! Each operation hands the word to an atomic update together with the
//! function that computes the word to store. The update applies the
//! function again whenever another context got in between, so an operation
//! never waits for another, and the word it acts on is the word that was
//! there at the moment of the update. Under use by one context alone the
//! structures behave as their exclusive counterparts do.

use vstd::prelude::*;
use crate::mem::bitmap::{
    after_alloc, after_free, all_taken, claim_lowest, free_outcome, lowest_free, release_bit,
    word_map,
};
use crate::mem::bits::{count_ones, lemma_ones_below_bound, test_bit};
use crate::mem::pool::PoolError;
use crate::mem::psram::{aligned_offset, bump_step, PsramError, PsramInfo, PsramStats};
use crate::sync::atomic::{
    bool_load, bool_new, bool_store, bool_swap, u64_fetch_add, u64_fetch_update, u64_load,
    u64_new, u64_store, u8_fetch_update, u8_load, u8_new, usize_fetch_update, usize_load,
    usize_new, usize_store,
};
use crate::tasks::multicore::{acquire_step, release_step, released};

verus! {

/// The slot that a claim on word number `word_idx` took, where the update
/// reports that the word was `previous` when the claim went through: the
/// lowest free slot of that word, counted from the first slot of the
/// bitmap. A full word has none.
pub fn claimed_index(word_idx: usize, previous: u64) -> (r: Option<usize>)
    requires
        64 * word_idx + 64 <= usize::MAX,
    ensures
        r is None <==> previous == u64::MAX,
        r matches Some(i) ==> 64 * word_idx <= i < 64 * word_idx + 64 && lowest_free(
            word_map(previous),
            i - 64 * word_idx,
        ),
{
    match claim_lowest(previous) {
        Some((slot, _)) => Some(word_idx * 64 + slot as usize),
        None => None,
    }
}

/// Whether `size` bytes at alignment `align` can be placed behind the
/// cursor `previous` of a region of `total` bytes at address `base`: they
/// have to fit the region, and their address the machine word.
pub open spec fn can_place(base: usize, previous: usize, total: usize, size: usize, align: usize) -> bool {
    aligned_offset(previous as nat, align as nat) + size <= total && base + aligned_offset(
        previous as nat,
        align as nat,
    ) <= usize::MAX
}

/// The cursor to store for an allocation of `size` bytes at alignment
/// `align` behind the cursor `previous`, or `None` where the allocation
/// cannot be placed.
pub fn advanced_cursor(base: usize, previous: usize, total: usize, size: usize, align: usize) -> (r:
    Option<usize>)
    ensures
        r is Some == can_place(base, previous, total, size, align),
        r matches Some(cursor) ==> cursor == aligned_offset(previous as nat, align as nat) + size,
{
    match bump_step(previous, total, size, align) {
        Some((aligned, cursor)) => match base.checked_add(aligned) {
            Some(_) => Some(cursor),
            None => None,
        },
        None => None,
    }
}

/// The address of an allocation of `size` bytes at alignment `align`, where
/// the update reports that the cursor was `previous` when the allocation
/// went through: the base plus the cursor rounded up to the alignment.
pub fn placed(base: usize, previous: usize, total: usize, size: usize, align: usize) -> (r: Result<
    usize,
    PsramError,
>)
    ensures
        r == if can_place(base, previous, total, size, align) {
            Ok::<usize, PsramError>((base + aligned_offset(previous as nat, align as nat)) as usize)
        } else {
            Err::<usize, PsramError>(PsramError::OutOfMemory)
        },
{
    match bump_step(previous, total, size, align) {
        Some((aligned, _)) => match base.checked_add(aligned) {
            Some(address) => Ok(address),
            None => Err(PsramError::OutOfMemory),
        },
        None => Err(PsramError::OutOfMemory),
    }
}

/// An occupancy bitmap of `WORDS` words, 64 slots each, that any number of
/// contexts allocate from and free into.
pub struct LockFreeBitmap<const WORDS: usize> {
    bits: Vec<portable_atomic::AtomicU64>,
}

impl<const WORDS: usize> LockFreeBitmap<WORDS> {
    /// There are `WORDS` words, and the slot indices fit the machine word.
    #[verifier::type_invariant]
    spec fn inv(&self) -> bool {
        self.bits@.len() == WORDS && 64 * WORDS <= usize::MAX
    }

    /// An empty bitmap.
    pub fn new() -> (r: Self)
        requires
            64 * WORDS <= usize::MAX,
    {
        let mut bits: Vec<portable_atomic::AtomicU64> = Vec::new();
        let mut i: usize = 0;
        while i < WORDS
            invariant
                i <= WORDS,
                bits@.len() == i,
            decreases WORDS - i,
        {
            bits.push(u64_new(0));
            i += 1;
        }
        LockFreeBitmap { bits }
    }

    /// Number of slots.
    pub fn capacity(&self) -> (r: usize)
        ensures
            r == 64 * WORDS,
    {
        proof {
            use_type_invariant(self);
        }
        64 * WORDS
    }

    /// Claims a slot and returns its index, or `None` where every word was
    /// full when it was looked at. Words are taken in order, and in a word
    /// the lowest free slot is claimed.
    pub fn allocate(&self) -> (r: Option<usize>)
        ensures
            r matches Some(i) ==> i < 64 * WORDS,
    {
        proof {
            use_type_invariant(self);
        }
        let mut word_idx: usize = 0;
        while word_idx < WORDS
            invariant
                word_idx <= WORDS,
                self.bits@.len() == WORDS,
                64 * WORDS <= usize::MAX,
            decreases WORDS - word_idx,
        {
            let claim = |word: u64| -> (next: Option<u64>)
                ensures
                    next is None <==> all_taken(word_map(word)),
                    next matches Some(stored) ==> word_map(stored) == after_alloc(word_map(word)),
                {
                    match claim_lowest(word) {
                        Some((_, next)) => Some(next),
                        None => None,
                    }
                };
            match u64_fetch_update(&self.bits[word_idx], claim) {
                Ok(previous) => {
                    match claimed_index(word_idx, previous) {
                        Some(index) => {
                            return Some(index);
                        },
                        None => {},
                    }
                },
                Err(_) => {},
            }
            word_idx += 1;
        }
        None
    }

    /// Frees slot `index`. An index past the last slot is reported as
    /// `InvalidSlot`, and a slot that was free at the moment of the update
    /// as `DoubleFree`.
    pub fn free(&self, index: usize) -> (r: Result<(), PoolError>)
        ensures
            index >= 64 * WORDS <==> r == Err::<(), PoolError>(PoolError::InvalidSlot),
            r is Ok || r == Err::<(), PoolError>(PoolError::InvalidSlot) || r == Err::<
                (),
                PoolError,
            >(PoolError::DoubleFree),
    {
        proof {
            use_type_invariant(self);
        }
        let word_idx = index / 64;
        let bit = (index % 64) as u32;
        if word_idx >= WORDS {
            return Err(PoolError::InvalidSlot);
        }
        let release = |word: u64| -> (next: Option<u64>)
            ensures
                next is Some <==> free_outcome(word_map(word), bit as int) is Ok,
                next matches Some(stored) ==> word_map(stored) == after_free(
                    word_map(word),
                    bit as int,
                ),
            { release_bit(word, bit) };
        match u64_fetch_update(&self.bits[word_idx], release) {
            Ok(_) => Ok(()),
            Err(_) => Err(PoolError::DoubleFree),
        }
    }

    /// Number of occupied slots, each word counted at the moment it is
    /// looked at: the count may be out of date when it arrives.
    pub fn count(&self) -> (r: usize)
        ensures
            r <= 64 * WORDS,
    {
        proof {
            use_type_invariant(self);
        }
        let mut total: usize = 0;
        let mut word_idx: usize = 0;
        while word_idx < WORDS
            invariant
                word_idx <= WORDS,
                self.bits@.len() == WORDS,
                64 * WORDS <= usize::MAX,
                total <= 64 * word_idx,
            decreases WORDS - word_idx,
        {
            let word = u64_load(&self.bits[word_idx]);
            let ones = count_ones(word);
            proof {
                lemma_ones_below_bound(word, 64);
            }
            total = total + ones as usize;
            word_idx += 1;
        }
        total
    }

    /// Whether slot `index` was occupied at the moment it was looked at; an
    /// index past the last slot is not.
    pub fn is_allocated(&self, index: usize) -> (r: bool)
        ensures
            index >= 64 * WORDS ==> !r,
    {
        proof {
            use_type_invariant(self);
        }
        let word_idx = index / 64;
        if word_idx >= WORDS {
            return false;
        }
        test_bit(u64_load(&self.bits[word_idx]), (index % 64) as u32)
    }
}

/// A counting semaphore with a largest count that any number of contexts
/// acquire and release.
pub struct LockFreeSemaphore {
    count: portable_atomic::AtomicU8,
    max: u8,
}

impl LockFreeSemaphore {
    /// The largest count that a release leads to.
    pub closed spec fn spec_max(&self) -> u8 {
        self.max
    }

    /// A semaphore with the count `initial` and the largest count `max`.
    pub fn new(initial: u8, max: u8) -> (r: Self)
        ensures
            r.spec_max() == max,
    {
        LockFreeSemaphore { count: u8_new(initial), max }
    }

    /// Takes one from the count, or returns `false` where the count was 0
    /// at the moment of the update. It never waits.
    pub fn try_acquire(&self) -> (r: bool) {
        let acquire = |count: u8| -> (next: Option<u8>)
            ensures
                next == crate::tasks::multicore::acquired(count),
            { acquire_step(count) };
        match u8_fetch_update(&self.count, acquire) {
            Ok(_) => true,
            Err(_) => false,
        }
    }

    /// Adds one to the count, unless the count was at the largest count at
    /// the moment of the update: then the call changes nothing. It never
    /// fails and never waits.
    pub fn release(&self) {
        let max = self.max;
        let release = |count: u8| -> (next: Option<u8>)
            ensures
                next is Some == (count < max),
                next matches Some(stored) ==> stored == released(count, max),
            { release_step(count, max) };
        let _ = u8_fetch_update(&self.count, release);
    }

    /// The count at the moment it is looked at.
    pub fn count(&self) -> (r: u8) {
        u8_load(&self.count)
    }

    /// The largest count.
    pub fn max(&self) -> (r: u8)
        ensures
            r == self.spec_max(),
    {
        self.max
    }
}

/// A one-bit signal that one context raises and another takes.
pub struct LockFreeSignal {
    flag: portable_atomic::AtomicBool,
}

impl LockFreeSignal {
    /// A signal that is not raised.
    pub fn new() -> (r: Self) {
        LockFreeSignal { flag: bool_new(false) }
    }

    /// Raises the signal.
    pub fn signal(&self) {
        bool_store(&self.flag, true);
    }

    /// Lowers the signal.
    pub fn clear(&self) {
        bool_store(&self.flag, false);
    }

    /// Takes the signal: returns whether it was raised at the moment of the
    /// update, and lowers it. Of the contexts that take a signal raised
    /// once, one gets `true`.
    pub fn check_and_clear(&self) -> (r: bool) {
        bool_swap(&self.flag, false)
    }

    /// Whether the signal was raised at the moment it was looked at.
    pub fn is_signaled(&self) -> (r: bool) {
        bool_load(&self.flag)
    }
}

/// A counter that any number of contexts advance. It wraps at the width of
/// its value.
pub struct LockFreeCounter {
    count: portable_atomic::AtomicU64,
}

impl LockFreeCounter {
    /// A counter at `value`.
    pub fn with_value(value: u64) -> (r: Self) {
        LockFreeCounter { count: u64_new(value) }
    }

    /// Adds `value` and returns the count that this addition led to.
    pub fn add(&self, value: u64) -> (r: u64) {
        u64_fetch_add(&self.count, value).wrapping_add(value)
    }

    /// Adds one and returns the count that this addition led to.
    pub fn increment(&self) -> (r: u64) {
        self.add(1)
    }

    /// The count at the moment it is looked at.
    pub fn get(&self) -> (r: u64) {
        u64_load(&self.count)
    }

    /// Sets the count to 0.
    pub fn reset(&self) {
        u64_store(&self.count, 0);
    }
}

/// The bump allocator over a region of external RAM, with one cursor that
/// any number of contexts allocate from.
pub struct LockFreeRegion {
    initialized: portable_atomic::AtomicBool,
    base: portable_atomic::AtomicUsize,
    size: portable_atomic::AtomicUsize,
    offset: portable_atomic::AtomicUsize,
}

impl LockFreeRegion {
    /// An allocator without a region.
    pub fn new() -> (r: Self) {
        LockFreeRegion {
            initialized: bool_new(false),
            base: usize_new(0),
            size: usize_new(0),
            offset: usize_new(0),
        }
    }

    /// Sets the region up as `size` bytes at address `base` and reports it.
    /// On an allocator that has a region the call changes nothing and
    /// reports the region that it has. The system calls this once at its
    /// start, before any context allocates.
    pub fn init(&self, base: usize, size: usize) -> (r: Result<PsramInfo, PsramError>)
        ensures
            r is Ok,
    {
        if bool_load(&self.initialized) {
            return Ok(PsramInfo { base: usize_load(&self.base), size: usize_load(&self.size) });
        }
        usize_store(&self.base, base);
        usize_store(&self.size, size);
        usize_store(&self.offset, 0);
        bool_store(&self.initialized, true);
        Ok(PsramInfo { base, size })
    }

    /// Allocates `size` bytes at alignment `align` and returns the address
    /// of the first. The cursor that was there at the moment of the update
    /// is rounded up to the alignment and moved past the allocation, so no
    /// two allocations overlap. An allocation that cannot be placed leaves
    /// the cursor where it was.
    pub fn allocate(&self, size: usize, align: usize) -> (r: Result<usize, PsramError>)
        ensures
            size == 0 <==> r == Err::<usize, PsramError>(PsramError::ZeroSize),
            r is Ok || r == Err::<usize, PsramError>(PsramError::ZeroSize) || r == Err::<
                usize,
                PsramError,
            >(PsramError::NotInitialized) || r == Err::<usize, PsramError>(
                PsramError::OutOfMemory,
            ),
    {
        if size == 0 {
            return Err(PsramError::ZeroSize);
        }
        if !bool_load(&self.initialized) {
            return Err(PsramError::NotInitialized);
        }
        let base = usize_load(&self.base);
        let total = usize_load(&self.size);
        let advance = |offset: usize| -> (next: Option<usize>)
            ensures
                next is Some == can_place(base, offset, total, size, align),
                next matches Some(cursor) ==> cursor == aligned_offset(offset as nat, align as nat)
                    + size,
            { advanced_cursor(base, offset, total, size, align) };
        match usize_fetch_update(&self.offset, advance) {
            Ok(previous) => placed(base, previous, total, size, align),
            Err(_) => Err(PsramError::OutOfMemory),
        }
    }

    /// Usage figures, each read at the moment it is looked at. The free
    /// figure is what the total leaves over the used one, and 0 where the
    /// two were read so far apart that the used one is the larger.
    pub fn stats(&self) -> (r: PsramStats)
        ensures
            r.free == if r.used <= r.total {
                r.total - r.used
            } else {
                0
            },
    {
        let total = usize_load(&self.size);
        let used = usize_load(&self.offset);
        let free = if used <= total {
            total - used
        } else {
            0
        };
        PsramStats { total, used, free }
    }
}

} // verus!
