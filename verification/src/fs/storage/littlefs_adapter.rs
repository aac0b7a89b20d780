//! The storage as the file system uses it: reads and writes at an offset
//! inside a block.

use vstd::prelude::*;
use crate::fs::storage::{
    block_address, erase_outcome, program_outcome, spec_block_count, FlashConfig, FlashStorage,
    PageWrite, StorageError,
};

verus! {

/// What reading `len` bytes at offset `offset` of block `block` reports:
/// the flash address of the first byte, or why the read is refused.
pub open spec fn read_outcome(
    config: FlashConfig,
    initialized: bool,
    block: u32,
    offset: u32,
    len: int,
) -> Result<u32, StorageError> {
    if offset + len > config.block_size {
        Err(StorageError::OutOfBounds)
    } else if !initialized {
        Err(StorageError::NotInitialized)
    } else {
        match block_address(config, block) {
            Err(e) => Err(e),
            Ok(base) => if base + offset > u32::MAX {
                Err(StorageError::OutOfBounds)
            } else {
                Ok((base + offset) as u32)
            },
        }
    }
}

/// A `FlashStorage` with the operations of a block device.
pub struct LfsStorageAdapter {
    storage: FlashStorage,
}

impl LfsStorageAdapter {
    /// The storage behind the adapter.
    pub closed spec fn spec_inner(&self) -> FlashStorage {
        self.storage
    }

    /// An adapter for `storage`.
    pub fn new(storage: FlashStorage) -> (r: Self)
        ensures
            r.spec_inner() == storage,
    {
        LfsStorageAdapter { storage }
    }

    /// The storage behind the adapter.
    pub fn inner(&self) -> (r: &FlashStorage)
        ensures
            *r == self.spec_inner(),
    {
        &self.storage
    }

    /// The storage behind the adapter, for changing.
    pub fn inner_mut(&mut self) -> (r: &mut FlashStorage)
        ensures
            *r == old(self).spec_inner(),
            final(self).spec_inner() == *final(r),
    {
        &mut self.storage
    }

    /// Checks a read of `len` bytes at offset `offset` of block `block` and
    /// returns the flash address to read from.
    pub fn read(&self, block: u32, offset: u32, len: usize) -> (r: Result<u32, StorageError>)
        ensures
            r == read_outcome(
                self.spec_inner().spec_config(),
                self.spec_inner().spec_initialized(),
                block,
                offset,
                len as int,
            ),
    {
        let block_size = self.storage.block_size();
        if len as u64 > block_size as u64 || offset as u64 + len as u64 > block_size as u64 {
            return Err(StorageError::OutOfBounds);
        }
        let base = match self.storage.read_block(block, len) {
            Ok(base) => base,
            Err(e) => {
                return Err(e);
            },
        };
        match base.checked_add(offset) {
            Some(address) => Ok(address),
            None => Err(StorageError::OutOfBounds),
        }
    }

    /// Checks a write of `len` bytes at offset `offset` of block `block`
    /// and returns the page writes that program them.
    pub fn prog(&mut self, block: u32, offset: u32, len: usize) -> (r: Result<
        Vec<PageWrite>,
        StorageError,
    >)
        ensures
            final(self).spec_inner() == old(self).spec_inner(),
            offset + len > old(self).spec_inner().spec_config().block_size ==> r == Err::<
                Vec<PageWrite>,
                StorageError,
            >(StorageError::OutOfBounds),
            offset + len <= old(self).spec_inner().spec_config().block_size ==> program_outcome(
                old(self).spec_inner().spec_config(),
                block,
                offset,
                len as int,
                r,
            ),
    {
        let block_size = self.storage.block_size();
        if len as u64 > block_size as u64 || offset as u64 + len as u64 > block_size as u64 {
            return Err(StorageError::OutOfBounds);
        }
        self.storage.program(block, offset, len)
    }

    /// Checks an erase of block `block` and returns the flash addresses of
    /// the sectors to erase.
    pub fn erase(&mut self, block: u32) -> (r: Result<Vec<u32>, StorageError>)
        ensures
            final(self).spec_inner() == old(self).spec_inner(),
            !old(self).spec_inner().spec_initialized() ==> r == Err::<Vec<u32>, StorageError>(
                StorageError::NotInitialized,
            ),
            old(self).spec_inner().spec_initialized() ==> erase_outcome(
                old(self).spec_inner().spec_config(),
                block,
                r,
            ),
    {
        self.storage.erase_block(block)
    }

    /// Makes sure that all writes are finished.
    pub fn sync(&mut self) -> (r: Result<(), StorageError>)
        ensures
            final(self).spec_inner() == old(self).spec_inner(),
            r == if old(self).spec_inner().spec_initialized() {
                Ok::<(), StorageError>(())
            } else {
                Err::<(), StorageError>(StorageError::NotInitialized)
            },
    {
        self.storage.sync()
    }

    /// Number of whole blocks in the partition.
    pub fn block_count(&self) -> (r: u32)
        ensures
            r == spec_block_count(self.spec_inner().spec_config()),
    {
        self.storage.block_count()
    }

    /// Size of one block in bytes.
    pub fn block_size(&self) -> (r: u32)
        ensures
            r == self.spec_inner().spec_config().block_size,
    {
        self.storage.block_size()
    }
}

} // verus!
