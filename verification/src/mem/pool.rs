//! Fixed-block memory pool with leased handles.

use vstd::prelude::*;
use core::marker::PhantomData;
use crate::mem::bitmap::{
    after_alloc, after_allocs, after_free, all_free, all_taken, free_outcome, lemma_after_alloc,
    lemma_all_taken_count, lemma_taken_below_bound, lemma_taken_below_update, lowest_free, taken,
    taken_below, BitmapLarge,
};

verus! {

/// Where a pool's storage lives.
#[derive(Debug, Clone, Copy, PartialEq, Eq, Structural)]
pub enum Backend {
    /// Internal RAM, lowest latency.
    Dram,
    /// External RAM reached through the cache.
    PsramCached,
    /// External RAM reached directly, for DMA.
    PsramDirect,
    /// Chosen by size and use.
    Auto,
}

impl Default for Backend {
    fn default() -> (r: Self)
        ensures
            r == Backend::Dram,
    {
        Backend::Dram
    }
}

/// What a pool or bitmap operation can report.
#[derive(Debug, Clone, Copy, PartialEq, Eq, Structural)]
pub enum PoolError {
    /// Every slot is taken.
    PoolFull,
    /// The index names no slot.
    InvalidSlot,
    /// The slot is already free.
    DoubleFree,
    /// The pool has not been set up.
    NotInitialized,
}

/// Largest number of slots a pool can have: four bitmap words.
pub const MAX_POOL_SLOTS: usize = 256;

/// The backend that the type-level tag `tag` stands for.
pub open spec fn backend_of(tag: u8) -> Backend {
    if tag == 0 {
        Backend::Dram
    } else if tag == 1 {
        Backend::PsramCached
    } else if tag == 2 {
        Backend::PsramDirect
    } else {
        Backend::Auto
    }
}

/// A pool of `N` slots for values of type `T`, with an occupancy bitmap.
///
/// A slot is claimed by `allocate` or `alloc_init`, which hand out a
/// `PoolBox`, and given back by `release`. Only a claimed slot holds a value.
pub struct MemoryPool<T, const N: usize, const BACKEND: u8> {
    slots: Vec<Option<T>>,
    bitmap: BitmapLarge<4>,
    id: Ghost<int>,
}

/// The lease of one slot of a `MemoryPool`. It is neither `Clone` nor `Copy`,
/// and it belongs to the pool that handed it out: a slot has one holder.
pub struct PoolBox<T, const N: usize, const BACKEND: u8> {
    index: usize,
    marker: PhantomData<T>,
    pool: Ghost<int>,
}

impl<T, const N: usize, const BACKEND: u8> PoolBox<T, N, BACKEND> {
    #[verifier::type_invariant]
    spec fn in_range(&self) -> bool {
        self.index < N
    }

    /// The slot that this lease names.
    pub closed spec fn slot(&self) -> int {
        self.index as int
    }

    /// The pool that handed this lease out: its `id()`.
    pub closed spec fn pool(&self) -> int {
        self.pool@
    }

    /// Index of the backing slot.
    pub fn index(&self) -> (r: usize)
        ensures
            r == self.slot(),
            r < N,
    {
        proof {
            use_type_invariant(self);
        }
        self.index
    }

    /// The backend of the pool that the lease came from.
    pub fn backend(&self) -> (r: Backend)
        ensures
            r == backend_of(BACKEND),
    {
        backend_from_tag(BACKEND)
    }
}

fn backend_from_tag(tag: u8) -> (r: Backend)
    ensures
        r == backend_of(tag),
{
    match tag {
        0 => Backend::Dram,
        1 => Backend::PsramCached,
        2 => Backend::PsramDirect,
        _ => Backend::Auto,
    }
}

/// Usage figures of a pool.
#[derive(Debug, Clone, Copy)]
pub struct PoolStats {
    /// Number of slots.
    pub capacity: usize,
    /// Slots that are claimed.
    pub allocated: usize,
    /// Slots that are free.
    pub free: usize,
    /// Where the storage lives.
    pub backend: Backend,
}

impl<T, const N: usize, const BACKEND: u8> MemoryPool<T, N, BACKEND> {
    /// The pool is well formed: it has at most 256 slots, the bitmap marks
    /// none past the last one, and a free slot holds no value.
    pub closed spec fn wf(&self) -> bool {
        &&& N <= 256
        &&& self.slots@.len() == N
        &&& self.bitmap@.len() == 256
        &&& forall|i: int| N <= i < 256 ==> !self.bitmap@[i]
        &&& forall|i: int| 0 <= i < N && !self.bitmap@[i] ==> self.slots@[i] is None
    }

    /// What tells this pool from every other. It exists for the contracts
    /// only: a lease carries the identity of the pool that handed it out,
    /// and only that pool takes the lease. Nothing lets a caller show that
    /// two pools have one identity, so a lease of one pool is refused by
    /// every other when the caller is verified.
    pub closed spec fn id(&self) -> int {
        self.id@
    }

    /// Which of the `N` slots are claimed.
    pub closed spec fn occupancy(&self) -> Seq<bool> {
        self.bitmap@.subrange(0, N as int)
    }

    /// What each of the `N` slots holds; a free slot holds nothing.
    pub closed spec fn contents(&self) -> Seq<Option<T>> {
        self.slots@
    }

    /// An empty pool.
    pub fn new() -> (r: Self)
        requires
            N <= 256,
        ensures
            r.wf(),
            r.occupancy() == all_free(N as nat),
            r.contents() == Seq::new(N as nat, |i: int| None::<T>),
    {
        let mut slots: Vec<Option<T>> = Vec::new();
        let mut i: usize = 0;
        while i < N
            invariant
                i <= N,
                slots@.len() == i,
                forall|j: int| 0 <= j < i ==> slots@[j] is None,
            decreases N - i,
        {
            slots.push(None);
            i += 1;
        }
        let bitmap = BitmapLarge::<4>::new();
        let r = MemoryPool { slots, bitmap, id: Ghost(arbitrary()) };
        proof {
            assert(r.occupancy() =~= all_free(N as nat));
            assert(r.contents() =~= Seq::new(N as nat, |i: int| None::<T>));
        }
        r
    }

    /// Number of slots.
    pub fn capacity(&self) -> (r: usize)
        ensures
            r == N,
    {
        N
    }

    /// Both maps of a well-formed pool have `N` entries, and a free slot
    /// holds no value.
    pub proof fn lemma_shape(&self)
        requires
            self.wf(),
        ensures
            N <= 256,
            self.occupancy().len() == N,
            self.contents().len() == N,
            forall|i: int| 0 <= i < N && !self.occupancy()[i] ==> self.contents()[i] is None,
    {
    }

    /// Number of claimed slots.
    pub fn allocated_count(&self) -> (r: usize)
        requires
            self.wf(),
        ensures
            r == taken(self.occupancy()),
            r <= N,
    {
        proof {
            self.lemma_count();
        }
        self.bitmap.count()
    }

    /// The bitmap's count is the count of the pool's own slots: no bit past
    /// them is ever set.
    proof fn lemma_count(&self)
        requires
            self.wf(),
        ensures
            taken(self.bitmap@) == taken(self.occupancy()),
            taken(self.occupancy()) <= N,
    {
        Self::lemma_tail_free(self.bitmap@, 256);
        Self::lemma_prefix_count(self.bitmap@, N as nat);
        lemma_taken_below_bound(self.occupancy(), N as nat);
    }

    proof fn lemma_tail_free(s: Seq<bool>, n: nat)
        requires
            s.len() == 256,
            N <= n <= 256,
            forall|i: int| N <= i < 256 ==> !s[i],
        ensures
            taken_below(s, n) == taken_below(s, N as nat),
        decreases n,
    {
        if n > N {
            Self::lemma_tail_free(s, (n - 1) as nat);
        }
    }

    proof fn lemma_prefix_count(s: Seq<bool>, n: nat)
        requires
            n <= N <= s.len(),
        ensures
            taken_below(s.subrange(0, N as int), n) == taken_below(s, n),
        decreases n,
    {
        if n > 0 {
            Self::lemma_prefix_count(s, (n - 1) as nat);
        }
    }

    /// Number of free slots.
    pub fn free_count(&self) -> (r: usize)
        requires
            self.wf(),
        ensures
            r == N - taken(self.occupancy()),
    {
        N - self.allocated_count()
    }

    /// Whether every slot is claimed.
    pub fn is_full(&self) -> (r: bool)
        requires
            self.wf(),
        ensures
            r == all_taken(self.occupancy()),
    {
        proof {
            lemma_all_taken_count(self.occupancy(), N as nat);
        }
        self.allocated_count() >= N
    }

    /// Whether no slot is claimed.
    pub fn is_empty(&self) -> (r: bool)
        requires
            self.wf(),
        ensures
            r == (taken(self.occupancy()) == 0),
    {
        self.allocated_count() == 0
    }

    /// Where the storage lives.
    pub fn backend(&self) -> (r: Backend)
        ensures
            r == backend_of(BACKEND),
    {
        backend_from_tag(BACKEND)
    }

    /// Usage figures.
    pub fn stats(&self) -> (r: PoolStats)
        requires
            self.wf(),
        ensures
            r.capacity == N,
            r.allocated == taken(self.occupancy()),
            r.free == N - taken(self.occupancy()),
            r.backend == backend_of(BACKEND),
    {
        let allocated = self.allocated_count();
        PoolStats { capacity: N, allocated, free: N - allocated, backend: self.backend() }
    }

    /// Claims the lowest free slot and returns its lease. The slot holds no
    /// value yet. A full pool reports `PoolFull` and is left as it was.
    pub fn allocate(&mut self) -> (r: Result<PoolBox<T, N, BACKEND>, PoolError>)
        requires
            old(self).wf(),
        ensures
            final(self).wf(),
            r is Err <==> all_taken(old(self).occupancy()),
            r matches Err(e) ==> e == PoolError::PoolFull,
            r matches Ok(lease) ==> lowest_free(old(self).occupancy(), lease.slot())
                && lease.pool() == old(self).id(),
            final(self).occupancy() == after_alloc(old(self).occupancy()),
            final(self).contents() == old(self).contents(),
            final(self).id() == old(self).id(),
    {
        let ghost before = self.bitmap@;
        let ghost occ = self.occupancy();
        let index = match self.bitmap.allocate() {
            Some(index) => index,
            None => {
                return Err(PoolError::PoolFull);
            },
        };
        if index >= N {
            // The bitmap has more bits than the pool has slots: give the bit back.
            let _ = self.bitmap.free(index);
            proof {
                assert(self.bitmap@ =~= before);
                assert(all_taken(occ));
            }
            return Err(PoolError::PoolFull);
        }
        proof {
            assert(lowest_free(occ, index as int));
            lemma_after_alloc(occ, index as int);
            assert(self.bitmap@.subrange(0, N as int) =~= occ.update(index as int, true));
        }
        Ok(PoolBox { index, marker: PhantomData, pool: Ghost(self.id@) })
    }

    /// Claims the lowest free slot and stores `value` in it. A full pool
    /// reports `PoolFull`, is left as it was, and `value` is dropped.
    pub fn alloc_init(&mut self, value: T) -> (r: Result<PoolBox<T, N, BACKEND>, PoolError>)
        requires
            old(self).wf(),
        ensures
            final(self).wf(),
            r is Err <==> all_taken(old(self).occupancy()),
            r matches Err(e) ==> e == PoolError::PoolFull && final(self).contents() == old(self).contents(),
            r matches Ok(lease) ==> lowest_free(old(self).occupancy(), lease.slot())
                && lease.pool() == old(self).id() && final(self).contents() == old(self).contents().update(lease.slot(), Some(value)),
            final(self).occupancy() == after_alloc(old(self).occupancy()),
            final(self).id() == old(self).id(),
    {
        let lease = match self.allocate() {
            Ok(lease) => lease,
            Err(e) => {
                return Err(e);
            },
        };
        let index = lease.index();
        proof {
            lemma_after_alloc(old(self).occupancy(), index as int);
            assert(self.occupancy()[index as int]);
            assert(self.bitmap@[index as int]);
        }
        self.slots[index] = Some(value);
        Ok(lease)
    }

    /// Gives the slot of `lease` back: its value is dropped and its bit
    /// cleared. The lease has to be one of this pool.
    pub fn release(&mut self, lease: PoolBox<T, N, BACKEND>) -> (r: Result<(), PoolError>)
        requires
            old(self).wf(),
            lease.pool() == old(self).id(),
        ensures
            final(self).wf(),
            final(self).id() == old(self).id(),
            r == free_outcome(old(self).occupancy(), lease.slot()),
            final(self).occupancy() == after_free(old(self).occupancy(), lease.slot()),
            final(self).contents() == if r is Ok {
                old(self).contents().update(lease.slot(), None)
            } else {
                old(self).contents()
            },
    {
        let index = lease.index();
        if !self.bitmap.is_allocated(index) {
            return Err(PoolError::DoubleFree);
        }
        self.slots[index] = None;
        let r = self.bitmap.free(index);
        proof {
            assert(self.bitmap@.subrange(0, N as int) =~= old(self).occupancy().update(
                index as int,
                false,
            ));
        }
        r
    }

    /// The value in the slot of `lease`, if it holds one. The lease has to
    /// be one of this pool.
    pub fn get(&self, lease: &PoolBox<T, N, BACKEND>) -> (r: Option<&T>)
        requires
            self.wf(),
            lease.pool() == self.id(),
        ensures
            r matches Some(v) ==> self.contents()[lease.slot()] == Some(*v),
            r is None ==> self.contents()[lease.slot()] is None,
    {
        let index = lease.index();
        self.slots[index].as_ref()
    }

    /// The value in the slot of `lease`, for changing in place, if the slot
    /// holds one. The lease has to be one of this pool.
    pub fn get_mut(&mut self, lease: &PoolBox<T, N, BACKEND>) -> (r: Option<&mut T>)
        requires
            old(self).wf(),
            lease.pool() == old(self).id(),
        ensures
            final(self).wf(),
            final(self).id() == old(self).id(),
            final(self).occupancy() == old(self).occupancy(),
            r matches Some(v) ==> old(self).contents()[lease.slot()] == Some(*v) && final(self).contents() == old(self).contents().update(lease.slot(), Some(*final(v))),
            r is None ==> old(self).contents()[lease.slot()] is None && final(self).contents()
                == old(self).contents(),
    {
        let index = lease.index();
        self.slots[index].as_mut()
    }

    /// Stores `value` in the slot of `lease` and returns what the slot held.
    /// The lease has to be one of this pool.
    pub fn write(&mut self, lease: &PoolBox<T, N, BACKEND>, value: T) -> (r: Result<
        Option<T>,
        PoolError,
    >)
        requires
            old(self).wf(),
            lease.pool() == old(self).id(),
        ensures
            final(self).wf(),
            final(self).id() == old(self).id(),
            final(self).occupancy() == old(self).occupancy(),
            r is Ok <==> old(self).occupancy()[lease.slot()],
            r matches Ok(previous) ==> previous == old(self).contents()[lease.slot()] && final(self).contents() == old(self).contents().update(lease.slot(), Some(value)),
            r matches Err(e) ==> e == PoolError::InvalidSlot && final(self).contents() == old(self).contents(),
    {
        let index = lease.index();
        if !self.bitmap.is_allocated(index) {
            return Err(PoolError::InvalidSlot);
        }
        let previous = self.slots[index].take();
        self.slots[index] = Some(value);
        proof {
            assert(self.slots@ =~= old(self).contents().update(index as int, Some(value)));
        }
        Ok(previous)
    }
}

/// On `n` slots that start free, `k <= n` allocations in a row all succeed
/// and claim the slots `0, 1, .., k - 1` in that order; once all `n` are
/// claimed the next allocation fails.
pub proof fn lemma_pool_exhaustion(n: nat, k: nat)
    requires
        k <= n,
    ensures
        after_allocs(all_free(n), k) == Seq::new(n, |j: int| j < k),
        taken(after_allocs(all_free(n), k)) == k,
        k < n ==> lowest_free(after_allocs(all_free(n), k), k as int),
        k == n ==> all_taken(after_allocs(all_free(n), k)) && after_alloc(
            after_allocs(all_free(n), k),
        ) == after_allocs(all_free(n), k),
    decreases k,
{
    let here = Seq::new(n, |j: int| j < k);
    if k == 0 {
        assert(all_free(n) =~= here);
        lemma_all_free_count(n, n);
    } else {
        lemma_pool_exhaustion(n, (k - 1) as nat);
        let prev = after_allocs(all_free(n), (k - 1) as nat);
        lemma_after_alloc(prev, k - 1);
        assert(prev.update(k - 1, true) =~= here);
    }
}

/// Releasing any one slot of a full pool lets exactly one more allocation
/// succeed: it claims the released slot, and the pool is full again.
pub proof fn lemma_pool_reuse(s: Seq<bool>, index: int)
    requires
        all_taken(s),
        0 <= index < s.len(),
    ensures
        free_outcome(s, index) is Ok,
        taken(after_free(s, index)) + 1 == taken(s),
        lowest_free(after_free(s, index), index),
        after_alloc(after_free(s, index)) == s,
        all_taken(after_alloc(after_free(s, index))),
{
    let freed = after_free(s, index);
    lemma_taken_below_update(s, index, false, s.len());
    lemma_after_alloc(freed, index);
    assert(freed.update(index, true) =~= s);
}

proof fn lemma_all_free_count(n: nat, m: nat)
    requires
        m <= n,
    ensures
        taken_below(all_free(n), m) == 0,
    decreases m,
{
    if m > 0 {
        lemma_all_free_count(n, (m - 1) as nat);
    }
}

} // verus!
