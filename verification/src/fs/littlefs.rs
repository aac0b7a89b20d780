//! The file system: mounting and formatting a partition, and the
//! bookkeeping of open files and directories.
//!
//! The flash is read and written by the caller. `mount` takes the
//! superblock that the caller has read, and `format` returns what the
//! caller has to erase and program.

use vstd::prelude::*;
use vstd::string::StringSliceAdditionalSpecFns;
use crate::util::bounded::BoundedText;
use crate::fs::storage::littlefs_adapter::{read_outcome, LfsStorageAdapter};
use crate::fs::storage::{
    init_outcome, program_outcome, sector_list, spec_block_count, FlashConfig, FlashStorage,
    PageWrite, StorageError,
};

verus! {

/// What a file-system operation can report.
#[derive(Debug, Clone, Copy, PartialEq, Eq, Structural)]
pub enum FsError {
    /// The storage reported an error.
    Storage(StorageError),
    /// The partition holds no file system.
    Corrupt,
    /// No such file or directory.
    NotFound,
    /// The file or directory exists.
    AlreadyExists,
    /// The path names no directory.
    NotADirectory,
    /// The path names no file.
    NotAFile,
    /// The directory is not empty.
    DirectoryNotEmpty,
    /// An argument is not valid.
    InvalidParam,
    /// The path is too long.
    PathTooLong,
    /// A name is too long.
    NameTooLong,
    /// No space is left.
    NoSpace,
    /// The file system is full.
    Full,
    /// Too many files are open.
    TooManyOpenFiles,
    /// The handle is not valid.
    InvalidHandle,
    /// The file system is not mounted.
    NotMounted,
    /// Mounting failed.
    MountFailed,
    /// Formatting failed.
    FormatFailed,
    /// Input or output failed.
    IoError,
}

impl From<StorageError> for FsError {
    fn from(e: StorageError) -> (r: Self) {
        FsError::Storage(e)
    }
}

impl vstd::std_specs::convert::FromSpecImpl<StorageError> for FsError {
    open spec fn obeys_from_spec() -> bool {
        true
    }

    open spec fn from_spec(e: StorageError) -> Self {
        FsError::Storage(e)
    }
}

impl FsError {
    /// The error in words; for a storage error, the words of that error.
    pub open spec fn spec_message(self) -> &'static str {
        match self {
            FsError::Storage(e) => e.spec_message(),
            FsError::Corrupt => "Filesystem corrupt",
            FsError::NotFound => "Not found",
            FsError::AlreadyExists => "Already exists",
            FsError::NotADirectory => "Not a directory",
            FsError::NotAFile => "Not a file",
            FsError::DirectoryNotEmpty => "Directory not empty",
            FsError::InvalidParam => "Invalid parameter",
            FsError::PathTooLong => "Path too long",
            FsError::NameTooLong => "Name too long",
            FsError::NoSpace => "No space",
            FsError::Full => "Filesystem full",
            FsError::TooManyOpenFiles => "Too many open files",
            FsError::InvalidHandle => "Invalid handle",
            FsError::NotMounted => "Not mounted",
            FsError::MountFailed => "Mount failed",
            FsError::FormatFailed => "Format failed",
            FsError::IoError => "IO error",
        }
    }

    /// The error in words.
    pub fn message(&self) -> (r: &'static str)
        ensures
            r == self.spec_message(),
    {
        match self {
            FsError::Storage(e) => e.message(),
            FsError::Corrupt => "Filesystem corrupt",
            FsError::NotFound => "Not found",
            FsError::AlreadyExists => "Already exists",
            FsError::NotADirectory => "Not a directory",
            FsError::NotAFile => "Not a file",
            FsError::DirectoryNotEmpty => "Directory not empty",
            FsError::InvalidParam => "Invalid parameter",
            FsError::PathTooLong => "Path too long",
            FsError::NameTooLong => "Name too long",
            FsError::NoSpace => "No space",
            FsError::Full => "Filesystem full",
            FsError::TooManyOpenFiles => "Too many open files",
            FsError::InvalidHandle => "Invalid handle",
            FsError::NotMounted => "Not mounted",
            FsError::MountFailed => "Mount failed",
            FsError::FormatFailed => "Format failed",
            FsError::IoError => "IO error",
        }
    }
}

/// Whether an entry is a file or a directory.
#[derive(Debug, Clone, Copy, PartialEq, Eq, Structural)]
pub enum FileType {
    /// A file.
    File,
    /// A directory.
    Directory,
}

/// How a file is opened.
#[derive(Debug, Clone, Copy, PartialEq, Eq, Structural)]
pub struct OpenOptions {
    /// The file can be read.
    pub read: bool,
    /// The file can be written.
    pub write: bool,
    /// The file is created if there is none.
    pub create: bool,
    /// The file is created, and opening fails if there is one.
    pub create_new: bool,
    /// Writing starts at the end.
    pub append: bool,
    /// The file is emptied.
    pub truncate: bool,
}

impl Default for OpenOptions {
    fn default() -> (r: Self)
        ensures
            r == OpenOptions::spec_new(),
    {
        OpenOptions::new()
    }
}

impl OpenOptions {
    /// Options with nothing set.
    pub open spec fn spec_new() -> OpenOptions {
        OpenOptions {
            read: false,
            write: false,
            create: false,
            create_new: false,
            append: false,
            truncate: false,
        }
    }

    /// Options with nothing set.
    pub fn new() -> (r: Self)
        ensures
            r == Self::spec_new(),
    {
        OpenOptions {
            read: false,
            write: false,
            create: false,
            create_new: false,
            append: false,
            truncate: false,
        }
    }

    /// The same options with reading set to `read`.
    pub fn read(self, read: bool) -> (r: Self)
        ensures
            r == (OpenOptions { read, ..self }),
    {
        OpenOptions { read, ..self }
    }

    /// The same options with writing set to `write`.
    pub fn write(self, write: bool) -> (r: Self)
        ensures
            r == (OpenOptions { write, ..self }),
    {
        OpenOptions { write, ..self }
    }

    /// The same options with creating set to `create`.
    pub fn create(self, create: bool) -> (r: Self)
        ensures
            r == (OpenOptions { create, ..self }),
    {
        OpenOptions { create, ..self }
    }

    /// The same options with creating anew set to `create_new`.
    pub fn create_new(self, create_new: bool) -> (r: Self)
        ensures
            r == (OpenOptions { create_new, ..self }),
    {
        OpenOptions { create_new, ..self }
    }

    /// The same options with appending set to `append`.
    pub fn append(self, append: bool) -> (r: Self)
        ensures
            r == (OpenOptions { append, ..self }),
    {
        OpenOptions { append, ..self }
    }

    /// The same options with emptying set to `truncate`.
    pub fn truncate(self, truncate: bool) -> (r: Self)
        ensures
            r == (OpenOptions { truncate, ..self }),
    {
        OpenOptions { truncate, ..self }
    }

    /// Options for reading only.
    pub fn read_only() -> (r: Self)
        ensures
            r == (OpenOptions { read: true, ..Self::spec_new() }),
    {
        Self::new().read(true)
    }

    /// Options for writing only: the file is created or emptied.
    pub fn write_only() -> (r: Self)
        ensures
            r == (OpenOptions { write: true, create: true, truncate: true, ..Self::spec_new() }),
    {
        Self::new().write(true).create(true).truncate(true)
    }

    /// Options for reading and writing.
    pub fn read_write() -> (r: Self)
        ensures
            r == (OpenOptions { read: true, write: true, ..Self::spec_new() }),
    {
        Self::new().read(true).write(true)
    }

    /// Options for appending: the file is created if there is none.
    pub fn append_mode() -> (r: Self)
        ensures
            r == (OpenOptions { write: true, create: true, append: true, ..Self::spec_new() }),
    {
        Self::new().write(true).create(true).append(true)
    }
}

/// Where a seek starts from.
#[derive(Debug, Clone, Copy, PartialEq, Eq, Structural)]
pub enum SeekFrom {
    /// From the start of the file.
    Start(u32),
    /// From the end of the file.
    End(i64),
    /// From the position.
    Current(i64),
}

/// Settings of the file system.
#[derive(Debug, Clone, Copy, PartialEq, Eq, Structural)]
pub struct FsConfig {
    /// Size of one block.
    pub block_size: u32,
    /// Number of blocks; 0 stands for all that the storage has.
    pub block_count: u32,
    /// Size of one read.
    pub read_size: u32,
    /// Size of one program operation.
    pub prog_size: u32,
    /// Size of the block cache.
    pub cache_size: u32,
    /// Size of the lookahead buffer.
    pub lookahead_size: u32,
    /// Erase cycles of a block before its data is moved.
    pub block_cycles: i32,
}

impl FsConfig {
    /// 4 KiB blocks, as many as the storage has, reads and writes of 256
    /// bytes, a cache of 512 bytes, a lookahead of 16 bytes and 500 cycles.
    pub open spec fn spec_default() -> FsConfig {
        FsConfig {
            block_size: 4096,
            block_count: 0,
            read_size: 256,
            prog_size: 256,
            cache_size: 512,
            lookahead_size: 16,
            block_cycles: 500,
        }
    }
}

impl Default for FsConfig {
    fn default() -> (r: Self)
        ensures
            r == FsConfig::spec_default(),
    {
        FsConfig {
            block_size: 4096,
            block_count: 0,
            read_size: 256,
            prog_size: 256,
            cache_size: 512,
            lookahead_size: 16,
            block_cycles: 500,
        }
    }
}

/// Size of the superblock image in bytes.
pub const SUPERBLOCK_SIZE: usize = 4096;

/// The eight bytes that mark a file system: the text "littlefs".
pub open spec fn magic() -> Seq<u8> {
    seq![0x6Cu8, 0x69u8, 0x74u8, 0x74u8, 0x6Cu8, 0x65u8, 0x66u8, 0x73u8]
}

/// Whether the superblock `block` carries the mark of a file system in its
/// bytes 8 to 15.
pub open spec fn has_magic(block: Seq<u8>) -> bool {
    block.len() >= 16 && block.subrange(8, 16) == magic()
}

/// Byte number `i` of the superblock of a file system with blocks of
/// `block_size` bytes: the version 2 and the block size, lowest byte first,
/// the mark, and 0xFF from there on.
pub open spec fn superblock_byte(block_size: u32, i: int) -> u8 {
    if i == 0 {
        2
    } else if i < 4 {
        0
    } else if i == 4 {
        (block_size % 256) as u8
    } else if i == 5 {
        (block_size / 256 % 256) as u8
    } else if i == 6 {
        (block_size / 65536 % 256) as u8
    } else if i == 7 {
        (block_size / 16777216) as u8
    } else if i < 16 {
        magic()[i - 8]
    } else {
        0xFF
    }
}

/// The superblock of a file system with blocks of `block_size` bytes.
pub open spec fn superblock_image(block_size: u32) -> Seq<u8> {
    Seq::new(SUPERBLOCK_SIZE as nat, |i: int| superblock_byte(block_size, i))
}

/// Whether `block` carries the mark of a file system.
pub fn check_magic(block: &[u8]) -> (r: bool)
    ensures
        r == has_magic(block@),
{
    if block.len() < 16 {
        return false;
    }
    let r = block[8] == 0x6C && block[9] == 0x69 && block[10] == 0x74 && block[11] == 0x74
        && block[12] == 0x6C && block[13] == 0x65 && block[14] == 0x66 && block[15] == 0x73;
    proof {
        let part = block@.subrange(8, 16);
        if r {
            assert(part =~= magic());
        } else {
            assert(part[0] == block@[8] && part[1] == block@[9] && part[2] == block@[10]
                && part[3] == block@[11] && part[4] == block@[12] && part[5] == block@[13]
                && part[6] == block@[14] && part[7] == block@[15]);
        }
    }
    r
}

/// The superblock of a file system with blocks of `block_size` bytes.
pub fn build_superblock(block_size: u32) -> (r: Vec<u8>)
    ensures
        r@ == superblock_image(block_size),
        has_magic(r@),
{
    let mut image: Vec<u8> = Vec::new();
    let mut i: usize = 0;
    while i < SUPERBLOCK_SIZE
        invariant
            i <= SUPERBLOCK_SIZE,
            image@.len() == i,
            forall|k: int| 0 <= k < i ==> image@[k] == superblock_byte(block_size, k),
        decreases SUPERBLOCK_SIZE - i,
    {
        let byte: u8 = if i == 0 {
            2
        } else if i < 4 {
            0
        } else if i == 4 {
            (block_size % 256) as u8
        } else if i == 5 {
            (block_size / 256 % 256) as u8
        } else if i == 6 {
            (block_size / 65536 % 256) as u8
        } else if i == 7 {
            (block_size / 16777216) as u8
        } else if i == 8 {
            0x6C
        } else if i == 9 {
            0x69
        } else if i == 10 {
            0x74
        } else if i == 11 {
            0x74
        } else if i == 12 {
            0x6C
        } else if i == 13 {
            0x65
        } else if i == 14 {
            0x66
        } else if i == 15 {
            0x73
        } else {
            0xFF
        };
        image.push(byte);
        i += 1;
    }
    proof {
        assert(image@ =~= superblock_image(block_size));
        assert(image@.subrange(8, 16) =~= magic());
    }
    image
}

/// The name of a directory entry: UTF-8 text of at most 64 bytes.
pub type EntryName = BoundedText<64>;

/// What is known of a file or directory.
pub struct Metadata {
    /// File or directory.
    pub file_type: FileType,
    /// Size in bytes; 0 for a directory.
    pub size: u32,
    /// Name of the entry.
    pub name: EntryName,
}

impl Metadata {
    /// Whether the entry is a file.
    pub fn is_file(&self) -> (r: bool)
        ensures
            r == (self.file_type == FileType::File),
    {
        match self.file_type {
            FileType::File => true,
            FileType::Directory => false,
        }
    }

    /// Whether the entry is a directory.
    pub fn is_dir(&self) -> (r: bool)
        ensures
            r == (self.file_type == FileType::Directory),
    {
        match self.file_type {
            FileType::File => false,
            FileType::Directory => true,
        }
    }
}

/// What the caller does to the flash to format it: erase the sectors, then
/// program the superblock with the page writes.
pub struct FormatPlan {
    /// Flash addresses of the sectors to erase, in order.
    pub sectors: Vec<u32>,
    /// The page writes that program the superblock at the start of block 0.
    pub writes: Vec<PageWrite>,
    /// The superblock.
    pub superblock: Vec<u8>,
}

/// What erasing the blocks `0` to `blocks - 1` in order gives: the sectors
/// of all of them, or the error of the first block that has one.
pub open spec fn erase_run(config: FlashConfig, blocks: nat) -> Result<Seq<u32>, StorageError>
    decreases blocks,
{
    if blocks == 0 {
        Ok(Seq::empty())
    } else {
        match erase_run(config, (blocks - 1) as nat) {
            Err(e) => Err(e),
            Ok(before) => match sector_list(config, (blocks - 1) as u32) {
                Err(e) => Err(e),
                Ok(list) => Ok(before + list),
            },
        }
    }
}

/// Number of blocks that formatting erases: the first four, or all where
/// there are fewer.
pub open spec fn blocks_to_erase(block_count: u32) -> nat {
    if block_count < 4 {
        block_count as nat
    } else {
        4
    }
}

/// Largest number of bytes of the path of a directory.
pub const MAX_PATH_BYTES: usize = 256;

/// Length of the path that the components among the first `n` bytes of
/// `path` give when each is written behind one slash: one for every byte
/// that is no slash, and one more where a component starts.
pub open spec fn joined_length(path: Seq<u8>, n: int) -> int
    decreases n,
{
    if n <= 0 {
        0
    } else if path[n - 1] == 0x2F {
        joined_length(path, n - 1)
    } else if n == 1 || path[n - 2] == 0x2F {
        joined_length(path, n - 1) + 2
    } else {
        joined_length(path, n - 1) + 1
    }
}

/// The joined length does not shrink as more of the path is taken in.
pub proof fn lemma_joined_length_grows(path: Seq<u8>, n: int, m: int)
    requires
        0 <= n <= m,
    ensures
        joined_length(path, n) <= joined_length(path, m),
    decreases m - n,
{
    if n < m {
        lemma_joined_length_grows(path, n, m - 1);
    }
}

/// A file system on one partition.
pub struct FileSystem {
    storage: LfsStorageAdapter,
    config: FsConfig,
    mounted: bool,
}

impl FileSystem {
    /// The settings.
    pub closed spec fn spec_config(&self) -> FsConfig {
        self.config
    }

    /// Whether the file system is mounted.
    pub closed spec fn spec_mounted(&self) -> bool {
        self.mounted
    }

    /// The storage under the file system.
    pub closed spec fn spec_storage(&self) -> FlashStorage {
        self.storage.spec_inner()
    }

    /// A mounted file system has initialised storage.
    pub closed spec fn wf(&self) -> bool {
        self.mounted ==> self.storage.spec_inner().spec_initialized()
    }

    /// A file system on `storage` with the default settings and as many
    /// blocks as the storage has. It is not mounted.
    pub fn new(storage: FlashStorage) -> (r: Self)
        ensures
            r.wf(),
            !r.spec_mounted(),
            r.spec_storage() == storage,
            r.spec_config() == (FsConfig {
                block_count: spec_block_count(storage.spec_config()) as u32,
                ..FsConfig::spec_default()
            }),
    {
        let adapter = LfsStorageAdapter::new(storage);
        let block_count = adapter.block_count();
        let config = FsConfig::default();
        FileSystem {
            storage: adapter,
            config: FsConfig { block_count, ..config },
            mounted: false,
        }
    }

    /// A file system on `storage` with the settings `config`, where a block
    /// count of 0 stands for as many blocks as the storage has. It is not
    /// mounted.
    pub fn with_config(storage: FlashStorage, config: FsConfig) -> (r: Self)
        ensures
            r.wf(),
            !r.spec_mounted(),
            r.spec_storage() == storage,
            r.spec_config() == if config.block_count == 0 {
                FsConfig { block_count: spec_block_count(storage.spec_config()) as u32, ..config }
            } else {
                config
            },
    {
        let adapter = LfsStorageAdapter::new(storage);
        let block_count = if config.block_count == 0 {
            adapter.block_count()
        } else {
            config.block_count
        };
        FileSystem { storage: adapter, config: FsConfig { block_count, ..config }, mounted: false }
    }

    /// Flash address of the superblock, which the caller reads for `mount`.
    pub fn superblock_address(&self) -> (r: Result<u32, StorageError>)
        ensures
            r == crate::fs::storage::block_address(self.spec_storage().spec_config(), 0),
    {
        self.storage.inner().block_to_address(0)
    }

    /// What `mount` reports for a file system that is not mounted, when the
    /// caller has read `superblock` from the start of block 0.
    pub open spec fn mount_outcome(self, superblock: Seq<u8>) -> Result<(), FsError> {
        let config = self.spec_storage().spec_config();
        match init_outcome(config) {
            Err(e) => Err(FsError::Storage(e)),
            Ok(_) => match read_outcome(config, true, 0, 0, SUPERBLOCK_SIZE as int) {
                Err(e) => Err(FsError::Storage(e)),
                Ok(_) => if has_magic(superblock) {
                    Ok(())
                } else {
                    Err(FsError::Corrupt)
                },
            },
        }
    }

    /// Mounts the file system. `superblock` is what the caller has read from
    /// the start of block 0. The storage is initialised, a read of a whole
    /// superblock has to be possible, and the superblock has to carry the
    /// mark of a file system. A mounted file system stays as it is.
    pub fn mount(&mut self, superblock: &[u8]) -> (r: Result<(), FsError>)
        requires
            old(self).wf(),
        ensures
            final(self).wf(),
            final(self).spec_config() == old(self).spec_config(),
            final(self).spec_storage().spec_config() == old(self).spec_storage().spec_config(),
            r == if old(self).spec_mounted() {
                Ok::<(), FsError>(())
            } else {
                old(self).mount_outcome(superblock@)
            },
            final(self).spec_mounted() == (r is Ok),
    {
        if self.mounted {
            return Ok(());
        }
        match self.storage.inner_mut().init() {
            Ok(_) => {},
            Err(e) => {
                return Err(FsError::Storage(e));
            },
        }
        match self.storage.read(0, 0, SUPERBLOCK_SIZE) {
            Ok(_) => {},
            Err(e) => {
                return Err(FsError::Storage(e));
            },
        }
        if !check_magic(superblock) {
            return Err(FsError::Corrupt);
        }
        self.mounted = true;
        Ok(())
    }

    /// Unmounts the file system.
    pub fn unmount(&mut self) -> (r: Result<(), FsError>)
        requires
            old(self).wf(),
        ensures
            final(self).wf(),
            r is Ok,
            !final(self).spec_mounted(),
            final(self).spec_config() == old(self).spec_config(),
            final(self).spec_storage() == old(self).spec_storage(),
    {
        if !self.mounted {
            return Ok(());
        }
        match self.storage.sync() {
            Ok(_) => {},
            Err(e) => {
                return Err(FsError::Storage(e));
            },
        }
        self.mounted = false;
        Ok(())
    }

    /// The result `r` of formatting a file system with the storage geometry
    /// `config` and the settings `settings`: the error of the first step
    /// that has one, or the plan.
    pub open spec fn format_outcome(
        config: FlashConfig,
        settings: FsConfig,
        r: Result<FormatPlan, FsError>,
    ) -> bool {
        match init_outcome(config) {
            Err(e) => r == Err::<FormatPlan, FsError>(FsError::Storage(e)),
            Ok(_) => match erase_run(config, blocks_to_erase(settings.block_count)) {
                Err(e) => r == Err::<FormatPlan, FsError>(FsError::Storage(e)),
                Ok(sectors) => if SUPERBLOCK_SIZE > config.block_size {
                    r == Err::<FormatPlan, FsError>(FsError::Storage(StorageError::OutOfBounds))
                } else {
                    match r {
                        Ok(plan) => plan.sectors@ == sectors && plan.superblock@
                            == superblock_image(settings.block_size) && program_outcome(
                            config,
                            0,
                            0,
                            SUPERBLOCK_SIZE as int,
                            Ok(plan.writes),
                        ),
                        Err(FsError::Storage(e)) => program_outcome(
                            config,
                            0,
                            0,
                            SUPERBLOCK_SIZE as int,
                            Err(e),
                        ),
                        Err(_) => false,
                    }
                },
            },
        }
    }

    /// Formats the partition: the file system is unmounted, the storage
    /// initialised, the first four blocks are erased and the superblock is
    /// programmed at the start of block 0. Returns what the caller has to
    /// do to the flash for that.
    pub fn format(&mut self) -> (r: Result<FormatPlan, FsError>)
        requires
            old(self).wf(),
        ensures
            final(self).wf(),
            !final(self).spec_mounted(),
            final(self).spec_config() == old(self).spec_config(),
            final(self).spec_storage().spec_config() == old(self).spec_storage().spec_config(),
            Self::format_outcome(old(self).spec_storage().spec_config(), old(self).spec_config(), r),
    {
        if self.mounted {
            let _ = self.unmount();
        }
        match self.storage.inner_mut().init() {
            Ok(_) => {},
            Err(e) => {
                return Err(FsError::Storage(e));
            },
        }
        let ghost config = self.storage.spec_inner().spec_config();
        let blocks = if self.config.block_count < 4 {
            self.config.block_count
        } else {
            4
        };
        let mut sectors: Vec<u32> = Vec::new();
        let mut block: u32 = 0;
        while block < blocks
            invariant
                block <= blocks <= 4,
                blocks == blocks_to_erase(old(self).config.block_count),
                config == old(self).storage.spec_inner().spec_config(),
                init_outcome(config) is Ok,
                self.storage.spec_inner().spec_initialized(),
                self.storage.spec_inner().spec_config() == config,
                self.config == old(self).config,
                !self.mounted,
                erase_run(config, block as nat) == Ok::<Seq<u32>, StorageError>(sectors@),
            ensures
                block == blocks,
            decreases blocks - block,
        {
            match self.storage.erase(block) {
                Ok(list) => {
                    let mut i: usize = 0;
                    let ghost before = sectors@;
                    while i < list.len()
                        invariant
                            i <= list@.len(),
                            sectors@ == before + list@.subrange(0, i as int),
                        decreases list@.len() - i,
                    {
                        sectors.push(list[i]);
                        proof {
                            assert(before + list@.subrange(0, i + 1) =~= (before + list@.subrange(
                                0,
                                i as int,
                            )).push(list@[i as int]));
                        }
                        i += 1;
                    }
                    proof {
                        assert(list@.subrange(0, list@.len() as int) =~= list@);
                    }
                },
                Err(e) => {
                    proof {
                        assert(erase_run(config, (block + 1) as nat) == Err::<
                            Seq<u32>,
                            StorageError,
                        >(e));
                        Self::lemma_erase_run_fails(config, (block + 1) as nat, blocks as nat);
                    }
                    return Err(FsError::Storage(e));
                },
            }
            block += 1;
        }
        let superblock = build_superblock(self.config.block_size);
        let writes = match self.storage.prog(0, 0, SUPERBLOCK_SIZE) {
            Ok(writes) => writes,
            Err(e) => {
                return Err(FsError::Storage(e));
            },
        };
        match self.storage.sync() {
            Ok(_) => {},
            Err(e) => {
                return Err(FsError::Storage(e));
            },
        }
        Ok(FormatPlan { sectors, writes, superblock })
    }

    /// Once erasing a run of blocks has failed, erasing a longer run fails
    /// in the same way.
    proof fn lemma_erase_run_fails(config: FlashConfig, failed: nat, blocks: nat)
        requires
            failed <= blocks,
            erase_run(config, failed) is Err,
        ensures
            erase_run(config, blocks) == erase_run(config, failed),
        decreases blocks,
    {
        if blocks > failed {
            Self::lemma_erase_run_fails(config, failed, (blocks - 1) as nat);
        }
    }

    /// Whether the file system is mounted.
    pub fn is_mounted(&self) -> (r: bool)
        ensures
            r == self.spec_mounted(),
    {
        self.mounted
    }

    /// The settings.
    pub fn config(&self) -> (r: &FsConfig)
        ensures
            *r == self.spec_config(),
    {
        &self.config
    }

    /// Number of blocks in use. The file system keeps no data of its own,
    /// so a mounted one uses none.
    pub fn used_blocks(&self) -> (r: Result<u32, FsError>)
        ensures
            r == if self.spec_mounted() {
                Ok::<u32, FsError>(0)
            } else {
                Err::<u32, FsError>(FsError::NotMounted)
            },
    {
        if !self.mounted {
            return Err(FsError::NotMounted);
        }
        Ok(0)
    }

    /// Number of blocks that are free.
    pub fn free_blocks(&self) -> (r: Result<u32, FsError>)
        ensures
            r == if self.spec_mounted() {
                Ok::<u32, FsError>(self.spec_config().block_count)
            } else {
                Err::<u32, FsError>(FsError::NotMounted)
            },
    {
        match self.used_blocks() {
            Ok(used) => Ok(self.config.block_count - used),
            Err(e) => Err(e),
        }
    }

    /// Size of the file system in bytes. The size has to fit 32 bits.
    pub fn total_bytes(&self) -> (r: u32)
        requires
            self.spec_config().block_count * self.spec_config().block_size <= u32::MAX,
        ensures
            r == self.spec_config().block_count * self.spec_config().block_size,
    {
        self.config.block_count * self.config.block_size
    }

    /// What an operation that needs a mounted file system reports.
    pub open spec fn mounted_or_error(self) -> Result<(), FsError> {
        if self.spec_mounted() {
            Ok(())
        } else {
            Err(FsError::NotMounted)
        }
    }

    /// Opens the file at `path`. The file system keeps no data of its own:
    /// every file is empty when it is opened, and has the number 1.
    pub fn open<'a>(&'a self, path: &str, options: OpenOptions) -> (r: Result<File<'a>, FsError>)
        ensures
            r is Ok == self.spec_mounted(),
            r matches Err(e) ==> e == FsError::NotMounted,
            r matches Ok(file) ==> file.spec_options() == options && file.spec_position() == 0
                && file.spec_size() == 0 && file.spec_id() == 1,
    {
        if !self.mounted {
            return Err(FsError::NotMounted);
        }
        let id = self.allocate_file_id();
        let size = if options.truncate {
            0
        } else {
            match self.get_file_size(path) {
                Ok(size) => size,
                Err(e) => {
                    return Err(e);
                },
            }
        };
        Ok(
            File {
                fs: self,
                id,
                options,
                position: if options.append {
                    size
                } else {
                    0
                },
                size,
            },
        )
    }

    /// Opens the file at `path` for writing only.
    pub fn create<'a>(&'a self, path: &str) -> (r: Result<File<'a>, FsError>)
        ensures
            r is Ok == self.spec_mounted(),
            r matches Err(e) ==> e == FsError::NotMounted,
            r matches Ok(file) ==> file.spec_options() == (OpenOptions {
                write: true,
                create: true,
                truncate: true,
                ..OpenOptions::spec_new()
            }) && file.spec_position() == 0 && file.spec_size() == 0 && file.spec_id() == 1,
    {
        self.open(path, OpenOptions::write_only())
    }

    /// Removes the file at `path`.
    pub fn remove(&self, path: &str) -> (r: Result<(), FsError>)
        ensures
            r == self.mounted_or_error(),
    {
        if !self.mounted {
            return Err(FsError::NotMounted);
        }
        Ok(())
    }

    /// Gives the file or directory at `old_path` the path `new_path`.
    pub fn rename(&self, old_path: &str, new_path: &str) -> (r: Result<(), FsError>)
        ensures
            r == self.mounted_or_error(),
    {
        if !self.mounted {
            return Err(FsError::NotMounted);
        }
        Ok(())
    }

    /// What is known of the entry at `path`: an empty file without a name.
    pub fn metadata(&self, path: &str) -> (r: Result<Metadata, FsError>)
        ensures
            r is Ok == self.spec_mounted(),
            r matches Err(e) ==> e == FsError::NotMounted,
            r matches Ok(m) ==> m.file_type == FileType::File && m.size == 0 && m.name@
                == Seq::<u8>::empty(),
    {
        if !self.mounted {
            return Err(FsError::NotMounted);
        }
        Ok(Metadata { file_type: FileType::File, size: 0, name: EntryName::new() })
    }

    /// Whether there is an entry at `path`.
    pub fn path_exists(&self, path: &str) -> (r: Result<bool, FsError>)
        ensures
            r == if self.spec_mounted() {
                Ok::<bool, FsError>(true)
            } else {
                Err::<bool, FsError>(FsError::NotMounted)
            },
    {
        match self.metadata(path) {
            Ok(_) => Ok(true),
            Err(FsError::NotFound) => Ok(false),
            Err(e) => Err(e),
        }
    }

    /// Creates the directory at `path`.
    pub fn create_dir(&self, path: &str) -> (r: Result<(), FsError>)
        ensures
            r == self.mounted_or_error(),
    {
        if !self.mounted {
            return Err(FsError::NotMounted);
        }
        Ok(())
    }

    /// Creates the directory at `path` and every directory above it. The
    /// path is taken apart at its slashes; the directories are created
    /// from the top down, each under the path of its components so far,
    /// which has to fit `MAX_PATH_BYTES` bytes.
    pub fn create_dir_all(&self, path: &str) -> (r: Result<(), FsError>)
        ensures
            r == if !self.spec_mounted() {
                Err::<(), FsError>(FsError::NotMounted)
            } else if joined_length(path.spec_bytes(), path.spec_bytes().len() as int)
                > MAX_PATH_BYTES {
                Err::<(), FsError>(FsError::PathTooLong)
            } else {
                Ok::<(), FsError>(())
            },
    {
        if !self.mounted {
            return Err(FsError::NotMounted);
        }
        let bytes = path.as_bytes();
        let total = bytes.len();
        let mut length: usize = 0;
        let mut i: usize = 0;
        while i < total
            invariant
                i <= total,
                total == bytes@.len(),
                bytes@ == path.spec_bytes(),
                length == joined_length(bytes@, i as int),
                length <= MAX_PATH_BYTES,
                self.mounted,
            decreases total - i,
        {
            if bytes[i] != 0x2F {
                // A component starts behind a slash, or at the start of the path.
                let starts = i == 0 || bytes[i - 1] == 0x2F;
                let step: usize = if starts {
                    2
                } else {
                    1
                };
                if length + step > MAX_PATH_BYTES {
                    proof {
                        assert(joined_length(bytes@, i + 1) == length + step);
                        lemma_joined_length_grows(bytes@, i + 1, total as int);
                    }
                    return Err(FsError::PathTooLong);
                }
                length = length + step;
                if i + 1 == total || bytes[i + 1] == 0x2F {
                    // The component ends here: its directory is created.
                    match self.create_dir(path) {
                        Ok(_) => {},
                        Err(FsError::AlreadyExists) => {},
                        Err(e) => {
                            return Err(e);
                        },
                    }
                }
            }
            i += 1;
        }
        Ok(())
    }

    /// Removes the empty directory at `path`.
    pub fn remove_dir(&self, path: &str) -> (r: Result<(), FsError>)
        ensures
            r == self.mounted_or_error(),
    {
        self.remove(path)
    }

    /// Opens the directory at `path` for listing. Every directory has the
    /// number 1.
    pub fn read_dir<'a>(&'a self, path: &str) -> (r: Result<Dir<'a>, FsError>)
        ensures
            r is Ok == self.spec_mounted(),
            r matches Err(e) ==> e == FsError::NotMounted,
            r matches Ok(dir) ==> dir.spec_index() == 0 && dir.spec_id() == 1,
    {
        if !self.mounted {
            return Err(FsError::NotMounted);
        }
        let id = self.allocate_dir_id();
        Ok(Dir { fs: self, id, index: 0 })
    }

    fn allocate_file_id(&self) -> (r: u32)
        ensures
            r == 1,
    {
        1
    }

    fn allocate_dir_id(&self) -> (r: u32)
        ensures
            r == 1,
    {
        1
    }

    fn get_file_size(&self, path: &str) -> (r: Result<u32, FsError>)
        ensures
            r == Ok::<u32, FsError>(0),
    {
        Ok(0)
    }

    fn read_file_internal(&self, id: u32, offset: u32, len: usize) -> (r: Result<usize, FsError>)
        ensures
            r == Ok::<usize, FsError>(len),
    {
        Ok(len)
    }

    fn write_file_internal(&self, id: u32, offset: u32, len: usize) -> (r: Result<usize, FsError>)
        ensures
            r == Ok::<usize, FsError>(len),
    {
        Ok(len)
    }

    fn sync_file_internal(&self, id: u32) -> (r: Result<(), FsError>)
        ensures
            r is Ok,
    {
        Ok(())
    }

    fn truncate_file_internal(&self, id: u32, size: u32) -> (r: Result<(), FsError>)
        ensures
            r is Ok,
    {
        Ok(())
    }

    fn read_dir_internal(&self, id: u32, index: u32) -> (r: Result<Option<Metadata>, FsError>)
        ensures
            r matches Ok(None),
    {
        Ok(None)
    }
}

/// An open file: its options, its position and its size.
pub struct File<'a> {
    fs: &'a FileSystem,
    id: u32,
    options: OpenOptions,
    position: u32,
    size: u32,
}

/// The position that a seek to `pos` leads to, in a file of `size` bytes at
/// position `position`.
pub open spec fn seek_target(pos: SeekFrom, position: u32, size: u32) -> int {
    match pos {
        SeekFrom::Start(offset) => offset as int,
        SeekFrom::End(offset) => size + offset,
        SeekFrom::Current(offset) => position + offset,
    }
}

impl<'a> File<'a> {
    /// Number of the file.
    pub closed spec fn spec_id(&self) -> u32 {
        self.id
    }

    /// How the file was opened.
    pub closed spec fn spec_options(&self) -> OpenOptions {
        self.options
    }

    /// Offset of the next byte to read or write.
    pub closed spec fn spec_position(&self) -> u32 {
        self.position
    }

    /// Size of the file in bytes.
    pub closed spec fn spec_size(&self) -> u32 {
        self.size
    }

    /// Number of bytes that a read of up to `len` bytes covers: those from
    /// the position to the end of the file, and no more than `len`.
    pub open spec fn readable(self, len: int) -> int {
        let available = if self.spec_size() > self.spec_position() {
            self.spec_size() - self.spec_position()
        } else {
            0
        };
        if len < available {
            len
        } else {
            available
        }
    }

    /// Accounts for a read of up to `len` bytes: returns how many bytes the
    /// read covers and moves the position behind them. The file has to be
    /// open for reading.
    pub fn read(&mut self, len: usize) -> (r: Result<usize, FsError>)
        ensures
            r == if old(self).spec_options().read {
                Ok::<usize, FsError>(old(self).readable(len as int) as usize)
            } else {
                Err::<usize, FsError>(FsError::InvalidParam)
            },
            final(self).spec_position() == if r is Ok {
                old(self).spec_position() + old(self).readable(len as int)
            } else {
                old(self).spec_position() as int
            },
            final(self).spec_size() == old(self).spec_size(),
            final(self).spec_options() == old(self).spec_options(),
            final(self).spec_id() == old(self).spec_id(),
    {
        if !self.options.read {
            return Err(FsError::InvalidParam);
        }
        let available = if self.size > self.position {
            (self.size - self.position) as usize
        } else {
            0
        };
        let to_read = if len < available {
            len
        } else {
            available
        };
        if to_read == 0 {
            return Ok(0);
        }
        let read = match self.fs.read_file_internal(self.id, self.position, to_read) {
            Ok(read) => read,
            Err(e) => {
                return Err(e);
            },
        };
        self.position = self.position + read as u32;
        Ok(read)
    }

    /// Accounts for a write of `len` bytes at the position: returns `len`,
    /// moves the position behind the bytes, and grows the file as far as
    /// the position. The file has to be open for writing, and the position
    /// has to stay within 32 bits.
    pub fn write(&mut self, len: usize) -> (r: Result<usize, FsError>)
        requires
            old(self).spec_position() + len <= u32::MAX,
        ensures
            r == if old(self).spec_options().write {
                Ok::<usize, FsError>(len)
            } else {
                Err::<usize, FsError>(FsError::InvalidParam)
            },
            final(self).spec_position() == if r is Ok {
                old(self).spec_position() + len
            } else {
                old(self).spec_position() as int
            },
            final(self).spec_size() == if r is Ok && old(self).spec_position() + len > old(self).spec_size() {
                old(self).spec_position() + len
            } else {
                old(self).spec_size() as int
            },
            final(self).spec_options() == old(self).spec_options(),
            final(self).spec_id() == old(self).spec_id(),
    {
        if !self.options.write {
            return Err(FsError::InvalidParam);
        }
        let written = match self.fs.write_file_internal(self.id, self.position, len) {
            Ok(written) => written,
            Err(e) => {
                return Err(e);
            },
        };
        self.position = self.position + written as u32;
        if self.position > self.size {
            self.size = self.position;
        }
        Ok(written)
    }

    /// Accounts for a write of all `len` bytes at the position, as `write`
    /// does.
    pub fn write_all(&mut self, len: usize) -> (r: Result<(), FsError>)
        requires
            old(self).spec_position() + len <= u32::MAX,
        ensures
            r == if old(self).spec_options().write || len == 0 {
                Ok::<(), FsError>(())
            } else {
                Err::<(), FsError>(FsError::InvalidParam)
            },
            final(self).spec_position() == if r is Ok {
                old(self).spec_position() + len
            } else {
                old(self).spec_position() as int
            },
            final(self).spec_size() == if r is Ok && len > 0 && old(self).spec_position() + len
                > old(self).spec_size() {
                old(self).spec_position() + len
            } else {
                old(self).spec_size() as int
            },
            final(self).spec_options() == old(self).spec_options(),
            final(self).spec_id() == old(self).spec_id(),
    {
        let mut offset: usize = 0;
        while offset < len
            invariant
                offset <= len,
                offset == 0 || offset == len,
                offset > 0 ==> self.options.write,
                old(self).spec_position() + len <= u32::MAX,
                self.options == old(self).options,
                self.id == old(self).id,
                self.position == old(self).position + offset,
                self.size == if offset > 0 && old(self).position + len > old(self).size {
                    old(self).position + len
                } else {
                    old(self).size as int
                },
            decreases len - offset,
        {
            let written = match self.write(len - offset) {
                Ok(written) => written,
                Err(e) => {
                    return Err(e);
                },
            };
            if written == 0 {
                return Err(FsError::NoSpace);
            }
            offset = offset + written;
        }
        Ok(())
    }

    /// Moves the position. A target before the start of the file is
    /// refused; a target past 32 bits is cut to 32 bits. The sum of base
    /// and offset has to fit 64 bits.
    pub fn seek(&mut self, pos: SeekFrom) -> (r: Result<u32, FsError>)
        requires
            i64::MIN <= seek_target(pos, old(self).spec_position(), old(self).spec_size())
                <= i64::MAX,
        ensures
            r == if seek_target(pos, old(self).spec_position(), old(self).spec_size()) < 0 {
                Err::<u32, FsError>(FsError::InvalidParam)
            } else {
                Ok::<u32, FsError>(
                    seek_target(pos, old(self).spec_position(), old(self).spec_size()) as i64 as u32,
                )
            },
            final(self).spec_position() == match r {
                Ok(p) => p,
                Err(_) => old(self).spec_position(),
            },
            final(self).spec_size() == old(self).spec_size(),
            final(self).spec_options() == old(self).spec_options(),
            final(self).spec_id() == old(self).spec_id(),
    {
        let new_pos: i64 = match pos {
            SeekFrom::Start(offset) => offset as i64,
            SeekFrom::End(offset) => self.size as i64 + offset,
            SeekFrom::Current(offset) => self.position as i64 + offset,
        };
        if new_pos < 0 {
            return Err(FsError::InvalidParam);
        }
        self.position = #[verifier::truncate] (new_pos as u32);
        Ok(self.position)
    }

    /// Offset of the next byte to read or write.
    pub fn position(&self) -> (r: u32)
        ensures
            r == self.spec_position(),
    {
        self.position
    }

    /// Size of the file in bytes.
    pub fn size(&self) -> (r: u32)
        ensures
            r == self.spec_size(),
    {
        self.size
    }

    /// Makes sure that what was written is stored.
    pub fn sync(&mut self) -> (r: Result<(), FsError>)
        ensures
            r is Ok,
            *final(self) == *old(self),
    {
        self.fs.sync_file_internal(self.id)
    }

    /// Sets the size of the file to `size` and moves a position behind the
    /// new end to the end. The file has to be open for writing.
    pub fn truncate(&mut self, size: u32) -> (r: Result<(), FsError>)
        ensures
            r == if old(self).spec_options().write {
                Ok::<(), FsError>(())
            } else {
                Err::<(), FsError>(FsError::InvalidParam)
            },
            final(self).spec_size() == if r is Ok {
                size
            } else {
                old(self).spec_size()
            },
            final(self).spec_position() == if r is Ok && old(self).spec_position() > size {
                size
            } else {
                old(self).spec_position()
            },
            final(self).spec_options() == old(self).spec_options(),
            final(self).spec_id() == old(self).spec_id(),
    {
        if !self.options.write {
            return Err(FsError::InvalidParam);
        }
        match self.fs.truncate_file_internal(self.id, size) {
            Ok(_) => {},
            Err(e) => {
                return Err(e);
            },
        }
        self.size = size;
        if self.position > size {
            self.position = size;
        }
        Ok(())
    }
}

/// An open directory: the number of the entry that comes next.
pub struct Dir<'a> {
    fs: &'a FileSystem,
    id: u32,
    index: u32,
}

impl<'a> Dir<'a> {
    /// Number of the directory.
    pub closed spec fn spec_id(&self) -> u32 {
        self.id
    }

    /// Number of the entry that comes next.
    pub closed spec fn spec_index(&self) -> u32 {
        self.index
    }

    /// The next entry. The file system keeps no data of its own, so a
    /// directory has none.
    pub fn next(&mut self) -> (r: Result<Option<Metadata>, FsError>)
        ensures
            r matches Ok(None),
            *final(self) == *old(self),
    {
        let result = match self.fs.read_dir_internal(self.id, self.index) {
            Ok(result) => result,
            Err(e) => {
                return Err(e);
            },
        };
        if result.is_some() {
            self.index = self.index + 1;
        }
        Ok(result)
    }

    /// Starts the listing over.
    pub fn rewind(&mut self)
        ensures
            final(self).spec_index() == 0,
            final(self).spec_id() == old(self).spec_id(),
    {
        self.index = 0;
    }
}

} // verus!
