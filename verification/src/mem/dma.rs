//! DMA buffers with an explicit hand-over between the CPU and a peripheral.
//!
//! A buffer is `Idle` while the CPU owns it. `prepare_for_dma_read` and
//! `prepare_for_dma_write` hand it to a peripheral and say which cache
//! maintenance the caller has to perform on the buffer's memory. After a
//! read `complete_dma_read` hands it back. After a write
//! `complete_dma_write` hands it back and asks for the invalidation, which
//! the caller performs before it reads what the peripheral wrote.

use vstd::prelude::*;
use vstd::arithmetic::div_mod::lemma_fundamental_div_mod;
use vstd::arithmetic::power2::is_pow2;
use crate::mem::psram::cache::CacheMaintenance;
use crate::util::pow2::lemma_mask_is_mod;

verus! {

/// Where a DMA buffer is placed.
#[derive(Debug, Clone, Copy, PartialEq, Eq, Structural)]
pub enum DmaStrategy {
    /// Internal memory below `AUTO_PSRAM_THRESHOLD` bytes, external memory
    /// with a bounce buffer from there on.
    Auto,
    /// Internal memory, which a peripheral can address directly.
    ForceDram,
    /// External memory, staged through a bounce buffer for each transfer.
    ForcePsramBounce,
}

impl Default for DmaStrategy {
    fn default() -> (r: Self)
        ensures
            r == DmaStrategy::Auto,
    {
        DmaStrategy::Auto
    }
}

/// Who owns a DMA buffer.
#[derive(Debug, Clone, Copy, PartialEq, Eq, Structural)]
pub enum DmaState {
    /// The CPU owns the buffer and may read and write it.
    Idle,
    /// A peripheral is reading the buffer.
    DmaReading,
    /// A peripheral is writing the buffer.
    DmaWriting,
}

/// Alignment of every DMA buffer: one cache line.
pub const DMA_ALIGNMENT: usize = 32;

/// Size in bytes from which the automatic strategy uses external memory.
pub const AUTO_PSRAM_THRESHOLD: usize = 4096;

/// A buffer of `SIZE` bytes that a peripheral can be given for a transfer.
pub struct DmaBuffer<const SIZE: usize> {
    data: [u8; SIZE],
    state: DmaState,
    strategy: DmaStrategy,
}

/// A DMA buffer as a value.
pub struct DmaView {
    /// The bytes of the buffer.
    pub data: Seq<u8>,
    /// Who owns the buffer.
    pub state: DmaState,
    /// The declared placement.
    pub strategy: DmaStrategy,
}

impl<const SIZE: usize> View for DmaBuffer<SIZE> {
    type V = DmaView;

    closed spec fn view(&self) -> DmaView {
        DmaView { data: self.data@, state: self.state, strategy: self.strategy }
    }
}

/// The first `count` bytes of `dest` replaced by the first `count` of `src`.
pub open spec fn overwrite_front(dest: Seq<u8>, src: Seq<u8>, count: int) -> Seq<u8> {
    src.subrange(0, count) + dest.subrange(count, dest.len() as int)
}

/// The smaller of two lengths.
pub open spec fn shorter(a: int, b: int) -> int {
    if a <= b {
        a
    } else {
        b
    }
}

impl<const SIZE: usize> DmaBuffer<SIZE> {
    /// A zeroed, idle buffer.
    pub fn new(strategy: DmaStrategy) -> (r: Self)
        ensures
            r@.state == DmaState::Idle,
            r@.strategy == strategy,
            r@.data == Seq::new(SIZE as nat, |i: int| 0u8),
    {
        let r = DmaBuffer { data: [0u8;SIZE], state: DmaState::Idle, strategy };
        assert(r@.data =~= Seq::new(SIZE as nat, |i: int| 0u8));
        r
    }

    /// A zeroed, idle buffer with the automatic strategy.
    pub fn new_auto() -> (r: Self)
        ensures
            r@.state == DmaState::Idle,
            r@.strategy == DmaStrategy::Auto,
            r@.data == Seq::new(SIZE as nat, |i: int| 0u8),
    {
        Self::new(DmaStrategy::Auto)
    }

    /// Size in bytes.
    pub fn size(&self) -> (r: usize)
        ensures
            r == SIZE,
            r == self@.data.len(),
    {
        SIZE
    }

    /// Alignment in bytes.
    pub fn alignment(&self) -> (r: usize)
        ensures
            r == DMA_ALIGNMENT,
    {
        DMA_ALIGNMENT
    }

    /// The declared placement.
    pub fn strategy(&self) -> (r: DmaStrategy)
        ensures
            r == self@.strategy,
    {
        self.strategy
    }

    /// The placement that is used: the declared one, with `Auto` decided by
    /// the size.
    pub fn resolved_strategy(&self) -> (r: DmaStrategy)
        ensures
            r == match self@.strategy {
                DmaStrategy::Auto => if SIZE < AUTO_PSRAM_THRESHOLD {
                    DmaStrategy::ForceDram
                } else {
                    DmaStrategy::ForcePsramBounce
                },
                other => other,
            },
    {
        match self.strategy {
            DmaStrategy::Auto => {
                if SIZE < AUTO_PSRAM_THRESHOLD {
                    DmaStrategy::ForceDram
                } else {
                    DmaStrategy::ForcePsramBounce
                }
            },
            other => other,
        }
    }

    /// Who owns the buffer.
    pub fn state(&self) -> (r: DmaState)
        ensures
            r == self@.state,
    {
        self.state
    }

    /// Whether a peripheral owns the buffer.
    pub fn is_dma_active(&self) -> (r: bool)
        ensures
            r == (self@.state != DmaState::Idle),
    {
        match self.state {
            DmaState::Idle => false,
            _ => true,
        }
    }

    /// The bytes, for reading. The buffer has to be idle.
    pub fn as_slice(&self) -> (r: &[u8])
        requires
            self@.state == DmaState::Idle,
        ensures
            r@ == self@.data,
    {
        &self.data
    }

    /// The bytes for reading, or `None` while a peripheral owns the buffer.
    pub fn try_as_slice(&self) -> (r: Option<&[u8]>)
        ensures
            r is Some <==> self@.state == DmaState::Idle,
            r matches Some(bytes) ==> bytes@ == self@.data,
    {
        if self.is_dma_active() {
            None
        } else {
            Some(self.as_slice())
        }
    }

    /// The bytes, for writing in place. The buffer has to be idle.
    pub fn as_mut_slice(&mut self) -> (r: &mut [u8])
        requires
            old(self)@.state == DmaState::Idle,
        ensures
            r@ == old(self)@.data,
            final(r)@.len() == SIZE,
            final(self)@.data == final(r)@,
            final(self)@.state == DmaState::Idle,
            final(self)@.strategy == old(self)@.strategy,
    {
        &mut self.data
    }

    /// Hands the buffer to a peripheral that will read it. The caller
    /// flushes the buffer's memory before starting the transfer.
    pub fn prepare_for_dma_read(&mut self) -> (r: CacheMaintenance)
        ensures
            r == CacheMaintenance::Flush,
            final(self)@.state == DmaState::DmaReading,
            final(self)@.data == old(self)@.data,
            final(self)@.strategy == old(self)@.strategy,
    {
        self.state = DmaState::DmaReading;
        CacheMaintenance::Flush
    }

    /// Takes the buffer back after a peripheral has read it.
    pub fn complete_dma_read(&mut self)
        ensures
            final(self)@.state == DmaState::Idle,
            final(self)@.data == old(self)@.data,
            final(self)@.strategy == old(self)@.strategy,
    {
        self.state = DmaState::Idle;
    }

    /// Hands the buffer to a peripheral that will write it. The caller
    /// invalidates the buffer's memory before starting the transfer.
    pub fn prepare_for_dma_write(&mut self) -> (r: CacheMaintenance)
        ensures
            r == CacheMaintenance::Invalidate,
            final(self)@.state == DmaState::DmaWriting,
            final(self)@.data == old(self)@.data,
            final(self)@.strategy == old(self)@.strategy,
    {
        self.state = DmaState::DmaWriting;
        CacheMaintenance::Invalidate
    }

    /// Takes the buffer back after a peripheral has written it. The caller
    /// invalidates the buffer's memory before it reads the buffer, so that
    /// it sees what the peripheral wrote.
    pub fn complete_dma_write(&mut self) -> (r: CacheMaintenance)
        ensures
            r == CacheMaintenance::Invalidate,
            final(self)@.state == DmaState::Idle,
            final(self)@.data == old(self)@.data,
            final(self)@.strategy == old(self)@.strategy,
    {
        self.state = DmaState::Idle;
        CacheMaintenance::Invalidate
    }

    /// Sets every byte to `value`. The buffer has to be idle.
    pub fn fill(&mut self, value: u8)
        requires
            old(self)@.state == DmaState::Idle,
        ensures
            final(self)@.data == Seq::new(SIZE as nat, |i: int| value),
            final(self)@.state == DmaState::Idle,
            final(self)@.strategy == old(self)@.strategy,
    {
        let mut i: usize = 0;
        while i < SIZE
            invariant
                i <= SIZE,
                self.state == old(self).state,
                self.strategy == old(self).strategy,
                forall|k: int| 0 <= k < i ==> self.data@[k] == value,
            decreases SIZE - i,
        {
            self.data[i] = value;
            i += 1;
        }
        assert(self@.data =~= Seq::new(SIZE as nat, |i: int| value));
    }

    /// Copies the front of `src` over the front of the buffer: as many bytes
    /// as both have. The buffer has to be idle.
    pub fn copy_from_slice(&mut self, src: &[u8])
        requires
            old(self)@.state == DmaState::Idle,
        ensures
            final(self)@.data == overwrite_front(old(self)@.data, src@, shorter(src@.len() as int, SIZE as int)),
            final(self)@.state == DmaState::Idle,
            final(self)@.strategy == old(self)@.strategy,
    {
        let len = if src.len() < SIZE {
            src.len()
        } else {
            SIZE
        };
        let mut i: usize = 0;
        while i < len
            invariant
                i <= len <= SIZE,
                len <= src@.len(),
                self.state == old(self).state,
                self.strategy == old(self).strategy,
                forall|k: int| 0 <= k < i ==> self.data@[k] == src@[k],
                forall|k: int| i <= k < SIZE ==> self.data@[k] == old(self).data@[k],
            decreases len - i,
        {
            self.data[i] = src[i];
            i += 1;
        }
        assert(self@.data =~= overwrite_front(old(self)@.data, src@, len as int));
    }

    /// Copies the front of the buffer over the front of `dst`: as many bytes
    /// as both have. The buffer has to be idle.
    pub fn copy_to_slice(&self, dst: &mut [u8])
        requires
            self@.state == DmaState::Idle,
        ensures
            final(dst)@ == overwrite_front(old(dst)@, self@.data, shorter(old(dst)@.len() as int, SIZE as int)),
    {
        let total = dst.len();
        let len = if total < SIZE {
            total
        } else {
            SIZE
        };
        let mut i: usize = 0;
        while i < len
            invariant
                i <= len <= SIZE,
                len <= total,
                dst@.len() == total,
                total == old(dst)@.len(),
                forall|k: int| 0 <= k < i ==> dst@[k] == self.data@[k],
                forall|k: int| i <= k < total ==> dst@[k] == old(dst)@[k],
            decreases len - i,
        {
            dst[i] = self.data[i];
            i += 1;
        }
        assert(dst@ =~= overwrite_front(old(dst)@, self@.data, len as int));
    }
}

/// One entry of a DMA descriptor chain.
pub struct DmaDescriptor {
    /// Address of the next descriptor, 0 at the end of the chain.
    pub next: u32,
    /// Address of the buffer.
    pub buffer: u32,
    /// Size of the buffer.
    pub size: u16,
    /// Number of bytes to transfer.
    pub length: u16,
    /// Control flags.
    pub flags: u32,
}

/// Flag bit that marks the last descriptor of a chain.
pub const DESCRIPTOR_EOF: u32 = 0x4000_0000;

/// Flag bit that is set while the DMA engine owns a descriptor.
pub const DESCRIPTOR_OWNER_DMA: u32 = 0x8000_0000;

impl DmaDescriptor {
    /// An empty descriptor.
    pub fn new() -> (r: Self)
        ensures
            r.next == 0,
            r.buffer == 0,
            r.size == 0,
            r.length == 0,
            r.flags == 0,
    {
        DmaDescriptor { next: 0, buffer: 0, size: 0, length: 0, flags: 0 }
    }

    /// Points the descriptor at a buffer. Address and size are cut to the
    /// width of their fields.
    pub fn set_buffer(&mut self, addr: usize, size: usize)
        ensures
            final(self).buffer == addr as u32,
            final(self).size == size as u16,
            final(self).length == size as u16,
            final(self).next == old(self).next,
            final(self).flags == old(self).flags,
    {
        self.buffer = #[verifier::truncate] (addr as u32);
        self.size = #[verifier::truncate] (size as u16);
        self.length = #[verifier::truncate] (size as u16);
    }

    /// Chains the descriptor at address `next` behind this one.
    pub fn link_to(&mut self, next: u32)
        ensures
            *final(self) == (DmaDescriptor { next, ..*old(self) }),
    {
        self.next = next;
    }

    /// Marks the descriptor as the last of its chain.
    pub fn set_eof(&mut self)
        ensures
            *final(self) == (DmaDescriptor {
                flags: old(self).flags | DESCRIPTOR_EOF,
                ..*old(self)
            }),
    {
        self.flags = self.flags | DESCRIPTOR_EOF;
    }

    /// Gives the descriptor to the DMA engine.
    pub fn set_owner_dma(&mut self)
        ensures
            *final(self) == (DmaDescriptor {
                flags: old(self).flags | DESCRIPTOR_OWNER_DMA,
                ..*old(self)
            }),
    {
        self.flags = self.flags | DESCRIPTOR_OWNER_DMA;
    }

    /// Whether the DMA engine has given the descriptor back.
    pub fn is_complete(&self) -> (r: bool)
        ensures
            r == (self.flags & DESCRIPTOR_OWNER_DMA == 0),
    {
        (self.flags & DESCRIPTOR_OWNER_DMA) == 0
    }
}

/// Collects the settings of a `DmaBuffer` before it is made.
pub struct DmaBufferBuilder<const SIZE: usize> {
    strategy: DmaStrategy,
    prefill: Option<u8>,
}

impl<const SIZE: usize> DmaBufferBuilder<SIZE> {
    /// The strategy chosen so far.
    pub closed spec fn spec_strategy(&self) -> DmaStrategy {
        self.strategy
    }

    /// The fill byte chosen so far, if any.
    pub closed spec fn spec_prefill(&self) -> Option<u8> {
        self.prefill
    }

    /// A builder with the automatic strategy and no fill byte.
    pub fn new() -> (r: Self)
        ensures
            r.spec_strategy() == DmaStrategy::Auto,
            r.spec_prefill() == None::<u8>,
    {
        DmaBufferBuilder { strategy: DmaStrategy::Auto, prefill: None }
    }

    /// Chooses the strategy.
    pub fn with_strategy(self, strategy: DmaStrategy) -> (r: Self)
        ensures
            r.spec_strategy() == strategy,
            r.spec_prefill() == self.spec_prefill(),
    {
        DmaBufferBuilder { strategy, prefill: self.prefill }
    }

    /// Chooses the byte that the buffer is filled with.
    pub fn with_prefill(self, value: u8) -> (r: Self)
        ensures
            r.spec_strategy() == self.spec_strategy(),
            r.spec_prefill() == Some(value),
    {
        DmaBufferBuilder { strategy: self.strategy, prefill: Some(value) }
    }

    /// Makes the buffer: idle, with the chosen strategy, filled with the
    /// chosen byte or with zero.
    pub fn build(self) -> (r: DmaBuffer<SIZE>)
        ensures
            r@.state == DmaState::Idle,
            r@.strategy == self.spec_strategy(),
            r@.data == Seq::new(
                SIZE as nat,
                |i: int|
                    match self.spec_prefill() {
                        Some(value) => value,
                        None => 0u8,
                    },
            ),
    {
        let mut buf = DmaBuffer::new(self.strategy);
        if let Some(value) = self.prefill {
            buf.fill(value);
        }
        assert(buf@.data =~= Seq::new(
            SIZE as nat,
            |i: int|
                match self.spec_prefill() {
                    Some(value) => value,
                    None => 0u8,
                },
        ));
        buf
    }
}

/// `size` rounded up to the next multiple of `alignment`.
pub open spec fn round_up(size: int, alignment: int) -> int {
    ((size + alignment - 1) / alignment) * alignment
}

/// `size` rounded up to the next multiple of `alignment`, which has to be
/// a power of two: the least multiple of the alignment that is not below
/// the size.
pub fn aligned_size(size: usize, alignment: usize) -> (r: usize)
    requires
        is_pow2(alignment as int),
        size + alignment - 1 <= usize::MAX,
    ensures
        r == round_up(size as int, alignment as int),
        r % alignment == 0,
        size <= r < size + alignment,
{
    proof {
        lemma_mask_is_mod(size, alignment);
    }
    let mask = alignment - 1;
    let bumped = size + mask;
    let r = bumped & !mask;
    proof {
        let a = alignment as int;
        assert(bumped & !mask == bumped - (bumped & mask)) by (bit_vector);
        lemma_mask_is_mod(bumped, alignment);
        lemma_fundamental_div_mod(bumped as int, a);
        vstd::arithmetic::div_mod::lemma_mod_bound(bumped as int, a);
        let q = bumped as int / a;
        assert(q * a == a * q) by (nonlinear_arith);
        vstd::arithmetic::div_mod::lemma_fundamental_div_mod_converse(a * q, a, q, 0);
    }
    r
}

/// Lowest address of internal memory that a peripheral can reach.
pub const DMA_RANGE_START: usize = 0x3FC8_8000;

/// Highest address of internal memory that a peripheral can reach.
pub const DMA_RANGE_END: usize = 0x3FCF_FFFF;

/// Whether the address `addr` lies in the memory that a peripheral can reach.
pub open spec fn spec_dma_capable(addr: int) -> bool {
    DMA_RANGE_START <= addr <= DMA_RANGE_END
}

/// Whether a peripheral can reach the address `addr`.
pub fn is_dma_capable_address(addr: usize) -> (r: bool)
    ensures
        r == spec_dma_capable(addr as int),
{
    DMA_RANGE_START <= addr && addr <= DMA_RANGE_END
}

/// Whether a peripheral can transfer the `size` bytes at `addr`: the address
/// is a multiple of 4, and the first and the last byte are in reach.
pub fn is_dma_safe(addr: usize, size: usize) -> (r: bool)
    ensures
        r == (addr % 4 == 0 && spec_dma_capable(addr as int) && spec_dma_capable(addr + size - 1)),
{
    if addr % 4 != 0 {
        return false;
    }
    if !is_dma_capable_address(addr) {
        return false;
    }
    match addr.checked_add(size) {
        Some(end) => is_dma_capable_address(end - 1),
        None => false,
    }
}

} // verus!
