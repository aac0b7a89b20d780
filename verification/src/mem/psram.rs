//! Bump allocator over a region of external RAM.
//!
//! The region is set up once. Each allocation rounds the cursor up to the
//! requested alignment and moves it past the allocation; nothing is ever
//! given back.

pub mod cache;

use vstd::prelude::*;
use vstd::arithmetic::div_mod::{
    lemma_fundamental_div_mod, lemma_fundamental_div_mod_converse, lemma_mod_bound,
};
use vstd::layout::{align_of, size_of};

verus! {

/// How an allocation in external RAM is reached.
#[derive(Debug, Clone, Copy, PartialEq, Eq, Structural)]
pub enum CacheMode {
    /// Chosen by use; cached unless stated otherwise.
    Auto,
    /// Through the cache, for random access.
    Cached,
    /// Past the cache, for DMA and large sequential transfers.
    Direct,
}

impl Default for CacheMode {
    fn default() -> (r: Self)
        ensures
            r == CacheMode::Auto,
    {
        CacheMode::Auto
    }
}

/// Settings of one allocation.
#[derive(Debug, Clone, Copy)]
pub struct PsramConfig {
    /// How the allocation is reached.
    pub cache_mode: CacheMode,
    /// Whether a real-time task uses the allocation.
    pub realtime: bool,
    /// Alignment in bytes.
    pub alignment: usize,
}

impl Default for PsramConfig {
    fn default() -> (r: Self)
        ensures
            r.cache_mode == CacheMode::Auto,
            !r.realtime,
            r.alignment == 32,
    {
        PsramConfig { cache_mode: CacheMode::Auto, realtime: false, alignment: 32 }
    }
}

impl PsramConfig {
    /// Settings for a real-time task: cached, cache-line aligned.
    pub fn realtime() -> (r: Self)
        ensures
            r.cache_mode == CacheMode::Cached,
            r.realtime,
            r.alignment == 32,
    {
        PsramConfig { cache_mode: CacheMode::Cached, realtime: true, alignment: 32 }
    }

    /// Settings for large transfers: uncached, cache-line aligned.
    pub fn bulk_transfer() -> (r: Self)
        ensures
            r.cache_mode == CacheMode::Direct,
            !r.realtime,
            r.alignment == 32,
    {
        PsramConfig { cache_mode: CacheMode::Direct, realtime: false, alignment: 32 }
    }

    /// The same settings with another cache mode.
    pub fn with_cache_mode(self, mode: CacheMode) -> (r: Self)
        ensures
            r.cache_mode == mode,
            r.realtime == self.realtime,
            r.alignment == self.alignment,
    {
        PsramConfig { cache_mode: mode, realtime: self.realtime, alignment: self.alignment }
    }

    /// The same settings with another alignment.
    pub fn with_alignment(self, align: usize) -> (r: Self)
        ensures
            r.cache_mode == self.cache_mode,
            r.realtime == self.realtime,
            r.alignment == align,
    {
        PsramConfig { cache_mode: self.cache_mode, realtime: self.realtime, alignment: align }
    }
}

/// Position and size of the region.
#[derive(Debug, Clone, Copy)]
pub struct PsramInfo {
    /// Address of the first byte.
    pub base: usize,
    /// Size in bytes.
    pub size: usize,
}

/// What an allocation can report.
#[derive(Debug, Clone, Copy, PartialEq, Eq, Structural)]
pub enum PsramError {
    /// The region has not been set up.
    NotInitialized,
    /// The allocation does not fit what is left of the region.
    OutOfMemory,
    /// The alignment cannot be met.
    AlignmentError,
    /// An allocation of no bytes was asked for.
    ZeroSize,
}

/// Usage figures of the region.
#[derive(Debug, Clone, Copy)]
pub struct PsramStats {
    /// Size of the region in bytes.
    pub total: usize,
    /// Bytes before the cursor.
    pub used: usize,
    /// Bytes from the cursor on.
    pub free: usize,
}

/// The allocator as a mathematical value.
pub struct BumpState {
    /// Whether the region has been set up.
    pub initialized: bool,
    /// Address of the region's first byte.
    pub base: nat,
    /// Size of the region in bytes.
    pub size: nat,
    /// The cursor: offset of the first byte that no allocation covers.
    pub used: nat,
}

/// `offset` rounded up to the next multiple of `align`; an alignment of 0
/// asks for nothing, as 1 does.
pub open spec fn aligned_offset(offset: nat, align: nat) -> nat {
    if align <= 1 {
        offset
    } else {
        (((offset + align - 1) / (align as int)) * align) as nat
    }
}

/// What allocating `size` bytes at alignment `align` reports in state `st`:
/// the address of the allocation, or why there is none.
pub open spec fn bump_outcome(st: BumpState, size: nat, align: nat) -> Result<nat, PsramError> {
    if size == 0 {
        Err(PsramError::ZeroSize)
    } else if !st.initialized {
        Err(PsramError::NotInitialized)
    } else if aligned_offset(st.used, align) + size > st.size {
        Err(PsramError::OutOfMemory)
    } else {
        Ok(st.base + aligned_offset(st.used, align))
    }
}

/// The state after allocating `size` bytes at alignment `align` in state
/// `st`: the cursor stands behind the allocation, and a failed allocation
/// changes nothing.
pub open spec fn after_bump(st: BumpState, size: nat, align: nat) -> BumpState {
    if bump_outcome(st, size, align) is Ok {
        BumpState { used: aligned_offset(st.used, align) + size, ..st }
    } else {
        st
    }
}

/// Rounding up gives the least multiple of the alignment that is not below
/// the offset.
pub proof fn lemma_aligned_offset(offset: nat, align: nat)
    requires
        align >= 1,
    ensures
        aligned_offset(offset, align) >= offset,
        aligned_offset(offset, align) < offset + align,
        aligned_offset(offset, align) % align == 0,
        offset % align == 0 ==> aligned_offset(offset, align) == offset,
        offset % align != 0 ==> aligned_offset(offset, align) == offset + align - offset % align,
{
    let a = align as int;
    let x = offset as int;
    lemma_fundamental_div_mod(x, a);
    lemma_mod_bound(x, a);
    let q = x / a;
    let rem = x % a;
    if align == 1 {
        assert(x % 1 == 0);
    } else if rem == 0 {
        assert(x + a - 1 == q * a + (a - 1)) by (nonlinear_arith)
            requires
                x == a * q + rem,
                rem == 0,
        ;
        lemma_fundamental_div_mod_converse(x + a - 1, a, q, a - 1);
        assert(q * a == x) by (nonlinear_arith)
            requires
                x == a * q + rem,
                rem == 0,
        ;
    } else {
        assert(x + a - 1 == (q + 1) * a + (rem - 1)) by (nonlinear_arith)
            requires
                x == a * q + rem,
        ;
        lemma_fundamental_div_mod_converse(x + a - 1, a, q + 1, rem - 1);
        assert((q + 1) * a == x + a - rem) by (nonlinear_arith)
            requires
                x == a * q + rem,
        ;
        lemma_fundamental_div_mod_converse(x + a - rem, a, q + 1, 0);
    }
}

/// The bump allocator: a region and a cursor into it.
pub struct PsramAllocator {
    initialized: bool,
    base: usize,
    size: usize,
    offset: usize,
}

impl View for PsramAllocator {
    type V = BumpState;

    closed spec fn view(&self) -> BumpState {
        BumpState {
            initialized: self.initialized,
            base: self.base as nat,
            size: self.size as nat,
            used: self.offset as nat,
        }
    }
}

impl PsramAllocator {
    /// The cursor stays inside the region, and the region inside the
    /// address space.
    #[verifier::type_invariant]
    spec fn inv(&self) -> bool {
        &&& self.offset <= self.size
        &&& self.base + self.size <= usize::MAX
        &&& !self.initialized ==> self.size == 0 && self.base == 0
    }

    /// An allocator without a region.
    pub fn new() -> (r: Self)
        ensures
            r@ == (BumpState { initialized: false, base: 0, size: 0, used: 0 }),
    {
        PsramAllocator { initialized: false, base: 0, size: 0, offset: 0 }
    }

    /// Whether the region has been set up.
    pub fn is_initialized(&self) -> (r: bool)
        ensures
            r == self@.initialized,
            self@.used <= self@.size,
            self@.base + self@.size <= usize::MAX,
    {
        proof {
            use_type_invariant(self);
        }
        self.initialized
    }

    fn set_region(&mut self, base: usize, size: usize)
        requires
            base + size <= usize::MAX,
        ensures
            final(self)@ == (BumpState {
                initialized: true,
                base: base as nat,
                size: size as nat,
                used: 0,
            }),
    {
        *self = PsramAllocator { initialized: true, base, size, offset: 0 };
    }

    fn used(&self) -> (r: usize)
        ensures
            r == self@.used,
    {
        self.offset
    }

    fn region(&self) -> (r: PsramInfo)
        ensures
            r.base == self@.base,
            r.size == self@.size,
    {
        PsramInfo { base: self.base, size: self.size }
    }

    fn bump(&mut self, size: usize, align: usize) -> (r: Result<usize, PsramError>)
        ensures
            r matches Ok(addr) ==> bump_outcome(old(self)@, size as nat, align as nat) == Ok::<
                nat,
                PsramError,
            >(addr as nat),
            r matches Err(e) ==> bump_outcome(old(self)@, size as nat, align as nat) == Err::<
                nat,
                PsramError,
            >(e),
            final(self)@ == after_bump(old(self)@, size as nat, align as nat),
    {
        proof {
            use_type_invariant(&*self);
        }
        if size == 0 {
            return Err(PsramError::ZeroSize);
        }
        if !self.initialized {
            return Err(PsramError::NotInitialized);
        }
        match bump_step(self.offset, self.size, size, align) {
            Some((aligned, new_offset)) => {
                self.offset = new_offset;
                Ok(self.base + aligned)
            },
            None => Err(PsramError::OutOfMemory),
        }
    }
}

/// One allocation on the cursor `offset` of a region of `total` bytes: the
/// offset of the allocation and the cursor to store, or `None` where `size`
/// bytes at alignment `align` do not fit.
pub fn bump_step(offset: usize, total: usize, size: usize, align: usize) -> (r: Option<
    (usize, usize),
>)
    ensures
        r is Some == (aligned_offset(offset as nat, align as nat) + size <= total),
        r matches Some((aligned, next)) ==> aligned == aligned_offset(offset as nat, align as nat)
            && next == aligned + size,
{
    let step = if align == 0 {
        1
    } else {
        align
    };
    proof {
        lemma_aligned_offset(offset as nat, step as nat);
        assert(aligned_offset(offset as nat, step as nat) == aligned_offset(
            offset as nat,
            align as nat,
        ));
    }
    let rem = offset % step;
    let aligned = if rem == 0 {
        offset
    } else {
        match offset.checked_add(step - rem) {
            Some(aligned) => aligned,
            None => {
                return None;
            },
        }
    };
    let next = match aligned.checked_add(size) {
        Some(next) => next,
        None => {
            return None;
        },
    };
    if next > total {
        return None;
    }
    Some((aligned, next))
}

/// Sets the region up as `size` bytes at address `base` and reports it. On
/// an allocator that has a region the call changes nothing and reports the
/// region that it has.
pub fn init(allocator: &mut PsramAllocator, base: usize, size: usize) -> (r: Result<
    PsramInfo,
    PsramError,
>)
    requires
        base + size <= usize::MAX,
    ensures
        r is Ok,
        final(allocator)@ == if old(allocator)@.initialized {
            old(allocator)@
        } else {
            BumpState { initialized: true, base: base as nat, size: size as nat, used: 0 }
        },
        r matches Ok(info) ==> info.base == final(allocator)@.base && info.size == final(allocator)@.size,
{
    if !allocator.is_initialized() {
        allocator.set_region(base, size);
    }
    Ok(allocator.region())
}

/// Allocates `size` bytes at alignment `align` and returns the address of
/// the first. The cursor is rounded up to the alignment and then moved past
/// the allocation.
pub fn psram_alloc_raw(allocator: &mut PsramAllocator, size: usize, align: usize) -> (r: Result<
    usize,
    PsramError,
>)
    ensures
        r matches Ok(addr) ==> bump_outcome(old(allocator)@, size as nat, align as nat) == Ok::<
            nat,
            PsramError,
        >(addr as nat),
        r matches Err(e) ==> bump_outcome(old(allocator)@, size as nat, align as nat) == Err::<
            nat,
            PsramError,
        >(e),
        final(allocator)@ == after_bump(old(allocator)@, size as nat, align as nat),
{
    allocator.bump(size, align)
}

/// The larger of two alignments.
pub open spec fn wider(a: nat, b: nat) -> nat {
    if a >= b {
        a
    } else {
        b
    }
}

/// The alignment of an allocation for a type with the alignment `natural`,
/// asked for with the alignment `requested`: the wider of the two.
pub fn wider_alignment(requested: usize, natural: usize) -> (r: usize)
    ensures
        r == wider(requested as nat, natural as nat),
{
    if requested >= natural {
        requested
    } else {
        natural
    }
}

/// A value that has been given a place in external RAM, with the settings
/// of its allocation. The place is never given back.
pub struct PsramBox<T> {
    value: T,
    address: usize,
    config: PsramConfig,
}

impl<T> PsramBox<T> {
    /// The value.
    pub closed spec fn spec_value(&self) -> T {
        self.value
    }

    /// Address of the allocation.
    pub closed spec fn spec_address(&self) -> nat {
        self.address as nat
    }

    /// Settings of the allocation.
    pub closed spec fn spec_config(&self) -> PsramConfig {
        self.config
    }

    /// Allocates room for `value` with the default settings and places it.
    pub fn new(allocator: &mut PsramAllocator, value: T) -> (r: Result<Self, PsramError>)
        ensures
            r matches Ok(b) ==> bump_outcome(
                old(allocator)@,
                size_of::<T>(),
                wider(32, align_of::<T>()),
            ) == Ok::<nat, PsramError>(b.spec_address()) && b.spec_value() == value
                && b.spec_config().alignment == 32 && b.spec_config().cache_mode
                == CacheMode::Auto && !b.spec_config().realtime,
            r matches Err(e) ==> bump_outcome(
                old(allocator)@,
                size_of::<T>(),
                wider(32, align_of::<T>()),
            ) == Err::<nat, PsramError>(e),
            final(allocator)@ == after_bump(
                old(allocator)@,
                size_of::<T>(),
                wider(32, align_of::<T>()),
            ),
    {
        Self::new_with_config(allocator, value, PsramConfig::default())
    }

    /// Allocates room for `value` and places it. The alignment is the wider
    /// of the one in `config` and the one of `T`.
    pub fn new_with_config(allocator: &mut PsramAllocator, value: T, config: PsramConfig) -> (r:
        Result<Self, PsramError>)
        ensures
            r matches Ok(b) ==> bump_outcome(
                old(allocator)@,
                size_of::<T>(),
                wider(config.alignment as nat, align_of::<T>()),
            ) == Ok::<nat, PsramError>(b.spec_address()) && b.spec_value() == value
                && b.spec_config() == config,
            r matches Err(e) ==> bump_outcome(
                old(allocator)@,
                size_of::<T>(),
                wider(config.alignment as nat, align_of::<T>()),
            ) == Err::<nat, PsramError>(e),
            final(allocator)@ == after_bump(
                old(allocator)@,
                size_of::<T>(),
                wider(config.alignment as nat, align_of::<T>()),
            ),
    {
        let size = core::mem::size_of::<T>();
        let align = wider_alignment(config.alignment, core::mem::align_of::<T>());
        match psram_alloc_raw(allocator, size, align) {
            Ok(address) => Ok(PsramBox { value, address, config }),
            Err(e) => Err(e),
        }
    }

    /// Allocates room for a `T` with the default settings and places
    /// nothing yet.
    pub fn new_uninit(allocator: &mut PsramAllocator) -> (r: Result<
        PsramBox<Option<T>>,
        PsramError,
    >)
        ensures
            r matches Ok(b) ==> bump_outcome(
                old(allocator)@,
                size_of::<T>(),
                wider(32, align_of::<T>()),
            ) == Ok::<nat, PsramError>(b.spec_address()) && b.spec_value() is None,
            r matches Err(e) ==> bump_outcome(
                old(allocator)@,
                size_of::<T>(),
                wider(32, align_of::<T>()),
            ) == Err::<nat, PsramError>(e),
            final(allocator)@ == after_bump(
                old(allocator)@,
                size_of::<T>(),
                wider(32, align_of::<T>()),
            ),
    {
        Self::new_uninit_with_config(allocator, PsramConfig::default())
    }

    /// Allocates room for a `T` and places nothing yet.
    pub fn new_uninit_with_config(allocator: &mut PsramAllocator, config: PsramConfig) -> (r:
        Result<PsramBox<Option<T>>, PsramError>)
        ensures
            r matches Ok(b) ==> bump_outcome(
                old(allocator)@,
                size_of::<T>(),
                wider(config.alignment as nat, align_of::<T>()),
            ) == Ok::<nat, PsramError>(b.spec_address()) && b.spec_value() is None
                && b.spec_config() == config,
            r matches Err(e) ==> bump_outcome(
                old(allocator)@,
                size_of::<T>(),
                wider(config.alignment as nat, align_of::<T>()),
            ) == Err::<nat, PsramError>(e),
            final(allocator)@ == after_bump(
                old(allocator)@,
                size_of::<T>(),
                wider(config.alignment as nat, align_of::<T>()),
            ),
    {
        let size = core::mem::size_of::<T>();
        let align = wider_alignment(config.alignment, core::mem::align_of::<T>());
        match psram_alloc_raw(allocator, size, align) {
            Ok(address) => Ok(PsramBox { value: None, address, config }),
            Err(e) => Err(e),
        }
    }

    /// Address of the allocation.
    pub fn as_ptr(&self) -> (r: usize)
        ensures
            r == self.spec_address(),
    {
        self.address
    }

    /// Address of the allocation, for writing.
    pub fn as_mut_ptr(&mut self) -> (r: usize)
        ensures
            r == old(self).spec_address(),
            *final(self) == *old(self),
    {
        self.address
    }

    /// Settings of the allocation.
    pub fn config(&self) -> (r: &PsramConfig)
        ensures
            *r == self.spec_config(),
    {
        &self.config
    }

    /// Whether the allocation starts inside the region of `allocator`.
    pub fn is_in_psram(&self, allocator: &PsramAllocator) -> (r: bool)
        ensures
            r == (allocator@.base <= self.spec_address() < allocator@.base + allocator@.size),
    {
        let _ = allocator.is_initialized();
        let info = allocator.region();
        self.address >= info.base && self.address < info.base + info.size
    }

    /// The value, for reading.
    pub fn get(&self) -> (r: &T)
        ensures
            *r == self.spec_value(),
    {
        &self.value
    }

    /// The value, for changing in place.
    pub fn get_mut(&mut self) -> (r: &mut T)
        ensures
            *r == old(self).spec_value(),
            final(self).spec_value() == *final(r),
            final(self).spec_address() == old(self).spec_address(),
            final(self).spec_config() == old(self).spec_config(),
    {
        &mut self.value
    }
}

impl<T> PsramBox<Option<T>> {
    /// Turns the box into one of the value that was placed in it. A value
    /// has to be there.
    pub fn assume_init(self) -> (r: PsramBox<T>)
        requires
            self.spec_value() is Some,
        ensures
            Some(r.spec_value()) == self.spec_value(),
            r.spec_address() == self.spec_address(),
            r.spec_config() == self.spec_config(),
    {
        let PsramBox { value, address, config } = self;
        PsramBox { value: value.unwrap(), address, config }
    }
}

/// The default value of `T`.
pub fn default_value<T: Default>() -> (r: T)
    ensures
        call_ensures(T::default, (), r),
{
    T::default()
}

/// Calls `core::array::from_fn`, which makes an array of the values that
/// the function it is given returns, one call for each index in order.
/// Here every call returns the default value of `T`.
#[verifier::external_body]
fn array_of_defaults<T: Default, const N: usize>() -> (r: [T; N])
    ensures
        forall|i: int| 0 <= i < N ==> call_ensures(T::default, (), #[trigger] r@[i]),
{
    core::array::from_fn(|_| default_value::<T>())
}

/// Allocates an array of `N` default values with the default settings.
pub fn alloc_array<T: Default + Clone, const N: usize>(allocator: &mut PsramAllocator) -> (r:
    Result<PsramBox<[T; N]>, PsramError>)
    ensures
        r matches Ok(b) ==> bump_outcome(
            old(allocator)@,
            size_of::<[T; N]>(),
            wider(32, align_of::<T>()),
        ) == Ok::<nat, PsramError>(b.spec_address()) && b.spec_config().alignment == 32
            && b.spec_config().cache_mode == CacheMode::Auto && !b.spec_config().realtime
            && forall|i: int|
            0 <= i < N ==> call_ensures(T::default, (), #[trigger] b.spec_value()@[i]),
        r matches Err(e) ==> bump_outcome(
            old(allocator)@,
            size_of::<[T; N]>(),
            wider(32, align_of::<T>()),
        ) == Err::<nat, PsramError>(e),
        final(allocator)@ == after_bump(
            old(allocator)@,
            size_of::<[T; N]>(),
            wider(32, align_of::<T>()),
        ),
{
    alloc_array_with_config(allocator, PsramConfig::default())
}

/// Allocates an array of `N` default values. The alignment is the wider of
/// the one in `config` and the one of `T`.
pub fn alloc_array_with_config<T: Default + Clone, const N: usize>(
    allocator: &mut PsramAllocator,
    config: PsramConfig,
) -> (r: Result<PsramBox<[T; N]>, PsramError>)
    ensures
        r matches Ok(b) ==> bump_outcome(
            old(allocator)@,
            size_of::<[T; N]>(),
            wider(config.alignment as nat, align_of::<T>()),
        ) == Ok::<nat, PsramError>(b.spec_address()) && b.spec_config() == config && forall|i: int|
            0 <= i < N ==> call_ensures(T::default, (), #[trigger] b.spec_value()@[i]),
        r matches Err(e) ==> bump_outcome(
            old(allocator)@,
            size_of::<[T; N]>(),
            wider(config.alignment as nat, align_of::<T>()),
        ) == Err::<nat, PsramError>(e),
        final(allocator)@ == after_bump(
            old(allocator)@,
            size_of::<[T; N]>(),
            wider(config.alignment as nat, align_of::<T>()),
        ),
{
    let size = core::mem::size_of::<[T; N]>();
    let align = wider_alignment(config.alignment, core::mem::align_of::<T>());
    match psram_alloc_raw(allocator, size, align) {
        Ok(address) => Ok(PsramBox { value: array_of_defaults(), address, config }),
        Err(e) => Err(e),
    }
}

/// The state after the allocations `requests`, each a size and an
/// alignment, were asked for in order, starting in state `st`.
pub open spec fn after_requests(st: BumpState, requests: Seq<(nat, nat)>) -> BumpState
    decreases requests.len(),
{
    if requests.len() == 0 {
        st
    } else {
        after_bump(after_requests(st, requests.drop_last()), requests.last().0, requests.last().1)
    }
}

/// What request number `i` of `requests` reports.
pub open spec fn outcome_at(st: BumpState, requests: Seq<(nat, nat)>, i: int) -> Result<
    nat,
    PsramError,
> {
    bump_outcome(after_requests(st, requests.subrange(0, i)), requests[i].0, requests[i].1)
}

/// The cursor never moves back and never leaves the region.
pub proof fn lemma_cursor_monotonic(st: BumpState, requests: Seq<(nat, nat)>)
    requires
        st.used <= st.size,
    ensures
        st.used <= after_requests(st, requests).used <= st.size,
        after_requests(st, requests).base == st.base,
        after_requests(st, requests).size == st.size,
        after_requests(st, requests).initialized == st.initialized,
    decreases requests.len(),
{
    if requests.len() > 0 {
        lemma_cursor_monotonic(st, requests.drop_last());
        let before = after_requests(st, requests.drop_last());
        if requests.last().1 >= 1 {
            lemma_aligned_offset(before.used, requests.last().1);
        }
    }
}

/// A successful allocation lies inside the region, behind everything
/// allocated before it, and at an offset that is a multiple of its
/// alignment.
pub proof fn lemma_allocation_placed(st: BumpState, size: nat, align: nat)
    requires
        bump_outcome(st, size, align) is Ok,
    ensures
        st.base + st.used <= bump_outcome(st, size, align)->Ok_0,
        bump_outcome(st, size, align)->Ok_0 + size == st.base + after_bump(st, size, align).used,
        bump_outcome(st, size, align)->Ok_0 + size <= st.base + st.size,
        align >= 1 ==> (bump_outcome(st, size, align)->Ok_0 - st.base) % (align as int) == 0,
{
    if align >= 1 {
        lemma_aligned_offset(st.used, align);
    }
}

/// Any two successful allocations of a run of requests do not overlap: the
/// later one starts where the earlier one ends, or behind.
pub proof fn lemma_allocations_disjoint(st: BumpState, requests: Seq<(nat, nat)>, i: int, j: int)
    requires
        st.used <= st.size,
        0 <= i < j < requests.len(),
        outcome_at(st, requests, i) is Ok,
        outcome_at(st, requests, j) is Ok,
    ensures
        outcome_at(st, requests, i)->Ok_0 + requests[i].0 <= outcome_at(st, requests, j)->Ok_0,
{
    let upto_i = requests.subrange(0, i);
    let past_i = requests.subrange(0, i + 1);
    let upto_j = requests.subrange(0, j);
    let st_i = after_requests(st, upto_i);
    let st_j = after_requests(st, upto_j);
    assert(past_i.drop_last() =~= upto_i);
    lemma_cursor_monotonic(st, upto_i);
    lemma_cursor_monotonic(st, past_i);
    lemma_allocation_placed(st_i, requests[i].0, requests[i].1);
    // The requests from number i + 1 up to j continue from the state after request i.
    let rest = requests.subrange(i + 1, j);
    lemma_requests_split(st, past_i, rest);
    assert(past_i + rest =~= upto_j);
    lemma_cursor_monotonic(after_requests(st, past_i), rest);
    lemma_allocation_placed(st_j, requests[j].0, requests[j].1);
}

/// Asking for one run of requests and then another is asking for both in
/// one run.
pub proof fn lemma_requests_split(st: BumpState, first: Seq<(nat, nat)>, second: Seq<(nat, nat)>)
    ensures
        after_requests(st, first + second) == after_requests(after_requests(st, first), second),
    decreases second.len(),
{
    if second.len() == 0 {
        assert(first + second =~= first);
    } else {
        lemma_requests_split(st, first, second.drop_last());
        assert((first + second).drop_last() =~= first + second.drop_last());
    }
}

/// Usage figures of the region.
pub fn stats(allocator: &PsramAllocator) -> (r: PsramStats)
    ensures
        r.total == allocator@.size,
        r.used == allocator@.used,
        r.free == allocator@.size - allocator@.used,
{
    let _ = allocator.is_initialized();
    let info = allocator.region();
    let used = allocator.used();
    PsramStats { total: info.size, used, free: info.size - used }
}

} // verus!
