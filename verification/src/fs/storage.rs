//! Block view of one flash partition: which address a block has, and which
//! pages and sectors an operation on it touches.

pub mod littlefs_adapter;

use vstd::prelude::*;
use crate::fs::partition::Partition;

verus! {

/// What a storage operation can report.
#[derive(Debug, Clone, Copy, PartialEq, Eq, Structural)]
pub enum StorageError {
    /// Reading failed.
    ReadError,
    /// Programming failed.
    WriteError,
    /// Erasing failed.
    EraseError,
    /// An address lies outside the partition or the flash.
    OutOfBounds,
    /// A size is not a multiple of the unit that it has to fit.
    AlignmentError,
    /// The device is busy.
    Busy,
    /// The device is write protected.
    WriteProtected,
    /// The storage has not been initialised.
    NotInitialized,
    /// Data read back differs from the data written.
    VerifyError,
    /// A DMA transfer failed.
    DmaError,
}

impl StorageError {
    /// The error in words.
    pub open spec fn spec_message(self) -> &'static str {
        match self {
            StorageError::ReadError => "Flash read error",
            StorageError::WriteError => "Flash write error",
            StorageError::EraseError => "Flash erase error",
            StorageError::OutOfBounds => "Address out of bounds",
            StorageError::AlignmentError => "Address alignment error",
            StorageError::Busy => "Device busy",
            StorageError::WriteProtected => "Write protected",
            StorageError::NotInitialized => "Not initialized",
            StorageError::VerifyError => "Verify error",
            StorageError::DmaError => "DMA transfer error",
        }
    }

    /// The error in words.
    pub fn message(&self) -> (r: &'static str)
        ensures
            r == self.spec_message(),
    {
        match self {
            StorageError::ReadError => "Flash read error",
            StorageError::WriteError => "Flash write error",
            StorageError::EraseError => "Flash erase error",
            StorageError::OutOfBounds => "Address out of bounds",
            StorageError::AlignmentError => "Address alignment error",
            StorageError::Busy => "Device busy",
            StorageError::WriteProtected => "Write protected",
            StorageError::NotInitialized => "Not initialized",
            StorageError::VerifyError => "Verify error",
            StorageError::DmaError => "DMA transfer error",
        }
    }
}

/// Geometry of the flash and of the partition that is used.
#[derive(Debug, Clone, Copy)]
pub struct FlashConfig {
    /// Size of the flash in bytes.
    pub total_size: u32,
    /// Size of one erase sector.
    pub sector_size: u32,
    /// Size of one file-system block.
    pub block_size: u32,
    /// Size of one program page.
    pub page_size: u32,
    /// Offset of the partition in the flash.
    pub partition_offset: u32,
    /// Size of the partition.
    pub partition_size: u32,
}

impl FlashConfig {
    /// A 16 MiB flash with 4 KiB sectors and blocks, 256-byte pages, and a
    /// storage partition of 0xBF0000 bytes at offset 0x410000.
    pub open spec fn spec_default() -> FlashConfig {
        FlashConfig {
            total_size: 0x100_0000,
            sector_size: 4096,
            block_size: 4096,
            page_size: 256,
            partition_offset: 0x41_0000,
            partition_size: 0xBF_0000,
        }
    }
}

impl Default for FlashConfig {
    fn default() -> (r: Self)
        ensures
            r == FlashConfig::spec_default(),
    {
        FlashConfig {
            total_size: 0x100_0000,
            sector_size: 4096,
            block_size: 4096,
            page_size: 256,
            partition_offset: 0x41_0000,
            partition_size: 0xBF_0000,
        }
    }
}

/// What `init` reports for the geometry `config`.
pub open spec fn init_outcome(config: FlashConfig) -> Result<(), StorageError> {
    if config.partition_offset + config.partition_size > config.total_size {
        Err(StorageError::OutOfBounds)
    } else if config.sector_size == 0 || config.block_size % config.sector_size != 0 {
        Err(StorageError::AlignmentError)
    } else {
        Ok(())
    }
}

/// Number of whole blocks in the partition; none where a block has no size.
pub open spec fn spec_block_count(config: FlashConfig) -> int {
    if config.block_size == 0 {
        0
    } else {
        config.partition_size as int / config.block_size as int
    }
}

/// Flash address of block `block`, or `OutOfBounds` for a block that does
/// not start inside the partition or the address range.
pub open spec fn block_address(config: FlashConfig, block: u32) -> Result<u32, StorageError> {
    let offset = block * config.block_size;
    if offset >= config.partition_size || config.partition_offset + offset > u32::MAX {
        Err(StorageError::OutOfBounds)
    } else {
        Ok((config.partition_offset + offset) as u32)
    }
}

/// One program operation: `len` bytes of the data from `offset` on go to
/// the flash address `address`, all within one page.
#[derive(Debug, Clone, Copy, PartialEq, Eq, Structural)]
pub struct PageWrite {
    /// Flash address of the first byte.
    pub address: u32,
    /// Offset of the first byte in the data.
    pub offset: usize,
    /// Number of bytes.
    pub len: usize,
}

/// The write `chunk` is not empty, programs the data from its offset on at
/// the matching flash address, and stays within one page.
pub open spec fn chunk_in_page(chunk: PageWrite, address: u32, page_size: u32) -> bool {
    &&& chunk.len > 0
    &&& chunk.address == address + chunk.offset
    &&& chunk.address as int / page_size as int == (chunk.address + chunk.len - 1)
        / page_size as int
}

/// The page writes `chunks` program `len` bytes at `address` in pieces that
/// follow each other without a gap, none empty, none across a page border,
/// and all but the last up to a page border.
pub open spec fn covers_in_pages(chunks: Seq<PageWrite>, address: u32, len: int, page_size: u32) -> bool {
    &&& forall|i: int| 0 <= i < chunks.len() ==> chunk_in_page(#[trigger] chunks[i], address, page_size)
    &&& forall|i: int|
        0 <= i < chunks.len() - 1 ==> (#[trigger] chunks[i]).offset + chunks[i].len == chunks[i
            + 1].offset && (chunks[i].address + chunks[i].len) % page_size as int == 0
    &&& chunks.len() > 0 ==> chunks[0].offset == 0
    &&& len == if chunks.len() == 0 {
        0
    } else {
        chunks.last().offset + chunks.last().len
    }
}

/// A write that starts at `current` and is no longer than the rest of the
/// page stays within the page, and one that fills the rest ends at the
/// page border.
proof fn lemma_page_chunk(current: int, write_size: int, page_size: int)
    requires
        page_size > 0,
        current >= 0,
        0 < write_size <= page_size - current % page_size,
    ensures
        current / page_size == (current + write_size - 1) / page_size,
        write_size == page_size - current % page_size ==> (current + write_size) % page_size == 0,
{
    let p = page_size;
    vstd::arithmetic::div_mod::lemma_fundamental_div_mod(current, p);
    let q = current / p;
    let page_offset = current % p;
    let last = current + write_size - 1;
    assert(last == q * p + (page_offset + write_size - 1)) by (nonlinear_arith)
        requires
            current == p * q + page_offset,
            last == current + write_size - 1,
    ;
    vstd::arithmetic::div_mod::lemma_fundamental_div_mod_converse(
        last,
        p,
        q,
        page_offset + write_size - 1,
    );
    if write_size == p - page_offset {
        assert(current + write_size == (q + 1) * p + 0) by (nonlinear_arith)
            requires
                current == p * q + page_offset,
                write_size == p - page_offset,
        ;
        vstd::arithmetic::div_mod::lemma_fundamental_div_mod_converse(
            current + write_size,
            p,
            q + 1,
            0,
        );
    }
}

/// Splits programming `len` bytes at flash address `address` into writes
/// that each stay within one page of `page_size` bytes.
pub fn page_writes(address: u32, len: usize, page_size: u32) -> (r: Vec<PageWrite>)
    requires
        page_size > 0,
        address + len <= u32::MAX,
    ensures
        covers_in_pages(r@, address, len as int, page_size),
{
    let mut chunks: Vec<PageWrite> = Vec::new();
    let mut offset: usize = 0;
    while offset < len
        invariant
            page_size > 0,
            offset <= len,
            address + len <= u32::MAX,
            covers_in_pages(chunks@, address, offset as int, page_size),
            chunks@.len() > 0 && offset < len ==> (address + offset) % page_size as int == 0,
        decreases len - offset,
    {
        let current = address + offset as u32;
        let page_offset = (current % page_size) as usize;
        let room = page_size as usize - page_offset;
        let left = len - offset;
        let write_size = if room < left {
            room
        } else {
            left
        };
        let ghost before = chunks@;
        let chunk = PageWrite { address: current, offset, len: write_size };
        chunks.push(chunk);
        proof {
            lemma_page_chunk(current as int, write_size as int, page_size as int);
            assert(chunk_in_page(chunk, address, page_size));
            assert forall|i: int| 0 <= i < chunks@.len() implies chunk_in_page(
                #[trigger] chunks@[i],
                address,
                page_size,
            ) by {
                if i < before.len() {
                    assert(chunks@[i] == before[i]);
                }
            }
            assert forall|i: int| 0 <= i < chunks@.len() - 1 implies (#[trigger] chunks@[i]).offset
                + chunks@[i].len == chunks@[i + 1].offset && (chunks@[i].address + chunks@[i].len)
                % page_size as int == 0 by {
                assert(chunks@[i] == before[i]);
                if i + 1 < before.len() {
                    assert(chunks@[i + 1] == before[i + 1]);
                }
            }
        }
        offset = offset + write_size;
    }
    chunks
}

/// The product of two 32-bit numbers, which fits 64 bits.
fn product(a: u32, b: u32) -> (r: u64)
    ensures
        r == a * b,
{
    assert(a * b <= 0xFFFF_FFFF * 0xFFFF_FFFF) by (nonlinear_arith)
        requires
            a <= 0xFFFF_FFFF,
            b <= 0xFFFF_FFFF,
    ;
    a as u64 * b as u64
}

/// One partition of the flash, seen as blocks.
pub struct FlashStorage {
    config: FlashConfig,
    initialized: bool,
}

impl FlashStorage {
    /// The geometry.
    pub closed spec fn spec_config(&self) -> FlashConfig {
        self.config
    }

    /// Whether `init` has accepted the geometry.
    pub closed spec fn spec_initialized(&self) -> bool {
        self.initialized
    }

    /// Storage with the geometry `config`, not yet initialised.
    pub fn new(config: FlashConfig) -> (r: Self)
        ensures
            r.spec_config() == config,
            !r.spec_initialized(),
    {
        FlashStorage { config, initialized: false }
    }

    /// Storage with the default geometry, not yet initialised.
    pub fn with_defaults() -> (r: Self)
        ensures
            r.spec_config() == FlashConfig::spec_default(),
            !r.spec_initialized(),
    {
        Self::new(FlashConfig::default())
    }

    /// Storage for the partition of `size` bytes at `offset`, on a flash of
    /// `total_flash_size` bytes with 4 KiB sectors and blocks and 256-byte
    /// pages.
    pub fn from_partition_range(offset: u32, size: u32, total_flash_size: u32) -> (r: Self)
        ensures
            r.spec_config() == (FlashConfig {
                total_size: total_flash_size,
                sector_size: 4096,
                block_size: 4096,
                page_size: 256,
                partition_offset: offset,
                partition_size: size,
            }),
            !r.spec_initialized(),
    {
        Self::new(
            FlashConfig {
                total_size: total_flash_size,
                sector_size: 4096,
                block_size: 4096,
                page_size: 256,
                partition_offset: offset,
                partition_size: size,
            },
        )
    }

    /// Storage for the partition `partition`, on a flash of
    /// `total_flash_size` bytes with 4 KiB sectors and blocks and 256-byte
    /// pages.
    pub fn from_partition(partition: &Partition, total_flash_size: u32) -> (r: Self)
        ensures
            r.spec_config() == (FlashConfig {
                total_size: total_flash_size,
                sector_size: 4096,
                block_size: 4096,
                page_size: 256,
                partition_offset: partition.offset,
                partition_size: partition.size,
            }),
            !r.spec_initialized(),
    {
        Self::from_partition_range(partition.offset, partition.size, total_flash_size)
    }

    /// Checks the geometry: the partition has to lie inside the flash, and
    /// a block has to be a whole number of sectors.
    pub fn init(&mut self) -> (r: Result<(), StorageError>)
        ensures
            r == init_outcome(old(self).spec_config()),
            final(self).spec_config() == old(self).spec_config(),
            final(self).spec_initialized() == (r is Ok || old(self).spec_initialized()),
    {
        let end = self.config.partition_offset as u64 + self.config.partition_size as u64;
        if end > self.config.total_size as u64 {
            return Err(StorageError::OutOfBounds);
        }
        if self.config.sector_size == 0 || self.config.block_size % self.config.sector_size != 0 {
            return Err(StorageError::AlignmentError);
        }
        self.initialized = true;
        Ok(())
    }

    /// Whether `init` has accepted the geometry.
    pub fn is_initialized(&self) -> (r: bool)
        ensures
            r == self.spec_initialized(),
    {
        self.initialized
    }

    /// The geometry.
    pub fn config(&self) -> (r: &FlashConfig)
        ensures
            *r == self.spec_config(),
    {
        &self.config
    }

    /// Number of whole blocks in the partition.
    pub fn block_count(&self) -> (r: u32)
        ensures
            r == spec_block_count(self.spec_config()),
    {
        if self.config.block_size == 0 {
            0
        } else {
            self.config.partition_size / self.config.block_size
        }
    }

    /// Size of one block in bytes.
    pub fn block_size(&self) -> (r: u32)
        ensures
            r == self.spec_config().block_size,
    {
        self.config.block_size
    }

    /// Flash address of block `block`.
    pub fn block_to_address(&self, block: u32) -> (r: Result<u32, StorageError>)
        ensures
            r == block_address(self.spec_config(), block),
    {
        let offset = product(block, self.config.block_size);
        if offset >= self.config.partition_size as u64 {
            return Err(StorageError::OutOfBounds);
        }
        let address = self.config.partition_offset as u64 + offset;
        if address > u32::MAX as u64 {
            return Err(StorageError::OutOfBounds);
        }
        Ok(address as u32)
    }

    /// Checks a read of `len` bytes from the start of block `block` and
    /// returns the flash address to read from.
    pub fn read_block(&self, block: u32, len: usize) -> (r: Result<u32, StorageError>)
        ensures
            r == if !self.spec_initialized() {
                Err::<u32, StorageError>(StorageError::NotInitialized)
            } else if len > self.spec_config().block_size {
                Err::<u32, StorageError>(StorageError::OutOfBounds)
            } else {
                block_address(self.spec_config(), block)
            },
    {
        if !self.initialized {
            return Err(StorageError::NotInitialized);
        }
        if len > self.config.block_size as usize {
            return Err(StorageError::OutOfBounds);
        }
        self.block_to_address(block)
    }

    /// Checks a write of `len` bytes to the start of block `block` and
    /// returns the page writes that program them.
    pub fn write_block(&mut self, block: u32, len: usize) -> (r: Result<Vec<PageWrite>, StorageError>)
        ensures
            *final(self) == *old(self),
            !old(self).spec_initialized() ==> r == Err::<Vec<PageWrite>, StorageError>(
                StorageError::NotInitialized,
            ),
            old(self).spec_initialized() && len > old(self).spec_config().block_size ==> r == Err::<
                Vec<PageWrite>,
                StorageError,
            >(StorageError::OutOfBounds),
            old(self).spec_initialized() && len <= old(self).spec_config().block_size ==> program_outcome(
                old(self).spec_config(),
                block,
                0,
                len as int,
                r,
            ),
    {
        if !self.initialized {
            return Err(StorageError::NotInitialized);
        }
        if len > self.config.block_size as usize {
            return Err(StorageError::OutOfBounds);
        }
        self.program(block, 0, len)
    }

    /// The page writes that program `len` bytes at offset `offset` of block
    /// `block`.
    pub fn program(&self, block: u32, offset: u32, len: usize) -> (r: Result<
        Vec<PageWrite>,
        StorageError,
    >)
        ensures
            program_outcome(self.spec_config(), block, offset, len as int, r),
    {
        let base = match self.block_to_address(block) {
            Ok(base) => base,
            Err(e) => {
                return Err(e);
            },
        };
        if self.config.page_size == 0 {
            return Err(StorageError::AlignmentError);
        }
        let start = base as u64 + offset as u64;
        if start > u32::MAX as u64 || len as u64 > u32::MAX as u64 - start {
            return Err(StorageError::OutOfBounds);
        }
        Ok(page_writes(start as u32, len, self.config.page_size))
    }

    /// Checks an erase of block `block` and returns the flash addresses of
    /// the sectors to erase, in order.
    pub fn erase_block(&mut self, block: u32) -> (r: Result<Vec<u32>, StorageError>)
        ensures
            *final(self) == *old(self),
            !old(self).spec_initialized() ==> r == Err::<Vec<u32>, StorageError>(
                StorageError::NotInitialized,
            ),
            old(self).spec_initialized() ==> erase_outcome(old(self).spec_config(), block, r),
    {
        if !self.initialized {
            return Err(StorageError::NotInitialized);
        }
        let address = match self.block_to_address(block) {
            Ok(address) => address,
            Err(e) => {
                return Err(e);
            },
        };
        if self.config.sector_size == 0 {
            return Err(StorageError::AlignmentError);
        }
        let sectors = self.config.block_size / self.config.sector_size;
        let mut list: Vec<u32> = Vec::new();
        let mut i: u32 = 0;
        while i < sectors
            invariant
                i <= sectors,
                *self == *old(self),
                self.initialized,
                block_address(self.config, block) == Ok::<u32, StorageError>(address),
                self.config.sector_size > 0,
                sectors == self.config.block_size / self.config.sector_size,
                list@.len() == i,
                forall|k: int|
                    0 <= k < i ==> #[trigger] list@[k] == address + k * self.config.sector_size,
            decreases sectors - i,
        {
            let step = product(i, self.config.sector_size);
            let sector = match (address as u64).checked_add(step) {
                Some(sector) => sector,
                None => u64::MAX,
            };
            if sector > u32::MAX as u64 {
                proof {
                    let ss = self.config.sector_size as int;
                    assert(i * ss <= (sectors - 1) * ss) by (nonlinear_arith)
                        requires
                            0 <= i <= sectors - 1,
                            ss > 0,
                    ;
                }
                return Err(StorageError::OutOfBounds);
            }
            list.push(sector as u32);
            i += 1;
        }
        proof {
            if sectors >= 1 {
                assert(list@[sectors - 1] == address + (sectors - 1) * self.config.sector_size);
            }
            assert(list@ =~= Seq::new(
                sectors as nat,
                |k: int| (address + k * self.config.sector_size) as u32,
            ));
        }
        Ok(list)
    }

    /// Makes sure that all writes are finished: they are when they return,
    /// so only uninitialised storage reports an error.
    pub fn sync(&mut self) -> (r: Result<(), StorageError>)
        ensures
            *final(self) == *old(self),
            r == if old(self).spec_initialized() {
                Ok::<(), StorageError>(())
            } else {
                Err::<(), StorageError>(StorageError::NotInitialized)
            },
    {
        if !self.initialized {
            return Err(StorageError::NotInitialized);
        }
        Ok(())
    }
}

/// A flash chip on the SPI bus.
pub struct ExternalFlash {
    config: FlashConfig,
    spi_attached: bool,
}

impl ExternalFlash {
    /// The geometry.
    pub closed spec fn spec_config(&self) -> FlashConfig {
        self.config
    }

    /// Whether the chip has been given its bus.
    pub closed spec fn spec_attached(&self) -> bool {
        self.spi_attached
    }

    /// A chip with the geometry `config`, without a bus.
    pub fn new(config: FlashConfig) -> (r: Self)
        ensures
            r.spec_config() == config,
            !r.spec_attached(),
    {
        ExternalFlash { config, spi_attached: false }
    }

    /// The same chip, with its bus. The caller keeps the bus itself.
    pub fn with_spi(self) -> (r: Self)
        ensures
            r.spec_config() == self.spec_config(),
            r.spec_attached(),
    {
        ExternalFlash { config: self.config, spi_attached: true }
    }

    /// The identification that the chip is asked for over the bus. Without
    /// a bus there is none; with one, the caller makes the transfer and
    /// fills the three bytes in, which are zero until then.
    pub fn read_jedec_id(&mut self) -> (r: Result<[u8; 3], StorageError>)
        ensures
            *final(self) == *old(self),
            r is Ok == old(self).spec_attached(),
            r matches Err(e) ==> e == StorageError::NotInitialized,
            r matches Ok(id) ==> id@ == seq![0u8, 0u8, 0u8],
    {
        if !self.spi_attached {
            return Err(StorageError::NotInitialized);
        }
        let id: [u8; 3] = [0, 0, 0];
        assert(id@ =~= seq![0u8, 0u8, 0u8]);
        Ok(id)
    }

    /// The geometry.
    pub fn config(&self) -> (r: &FlashConfig)
        ensures
            *r == self.spec_config(),
    {
        &self.config
    }
}

/// What programming `len` bytes at offset `offset` of block `block` gives:
/// page writes that cover the bytes, or why there are none.
pub open spec fn program_outcome(
    config: FlashConfig,
    block: u32,
    offset: u32,
    len: int,
    r: Result<Vec<PageWrite>, StorageError>,
) -> bool {
    match block_address(config, block) {
        Err(e) => r == Err::<Vec<PageWrite>, StorageError>(e),
        Ok(base) => if config.page_size == 0 {
            r == Err::<Vec<PageWrite>, StorageError>(StorageError::AlignmentError)
        } else if base + offset + len > u32::MAX {
            r == Err::<Vec<PageWrite>, StorageError>(StorageError::OutOfBounds)
        } else {
            r matches Ok(chunks) && covers_in_pages(
                chunks@,
                (base + offset) as u32,
                len,
                config.page_size,
            )
        },
    }
}

/// What erasing block `block` gives: the address of each sector of the
/// block, in order, or why there are none.
pub open spec fn sector_list(config: FlashConfig, block: u32) -> Result<Seq<u32>, StorageError> {
    match block_address(config, block) {
        Err(e) => Err(e),
        Ok(base) => if config.sector_size == 0 {
            Err(StorageError::AlignmentError)
        } else {
            let sectors = config.block_size as int / config.sector_size as int;
            if sectors >= 1 && base + (sectors - 1) * config.sector_size > u32::MAX {
                Err(StorageError::OutOfBounds)
            } else {
                Ok(Seq::new(sectors as nat, |k: int| (base + k * config.sector_size) as u32))
            }
        },
    }
}

/// The result `r` of an erase is what erasing block `block` gives.
pub open spec fn erase_outcome(config: FlashConfig, block: u32, r: Result<Vec<u32>, StorageError>) -> bool {
    match r {
        Ok(list) => sector_list(config, block) == Ok::<Seq<u32>, StorageError>(list@),
        Err(e) => sector_list(config, block) == Err::<Seq<u32>, StorageError>(e),
    }
}

} // verus!
