//! Memory-management and lock-free primitive core of a small real-time
//! operating system layer for a dual-core microcontroller.
//!
//! A structure that owns storage is an owned value that is changed through
//! `&mut self`: the contracts describe each operation as a transition of that
//! value, and tasks, interrupt handlers and the second core reach it through
//! whatever exclusion the embedding system provides. The structures that fit
//! a machine word have a lock-free form as well, in `sync::lockfree`, which
//! is shared as it is.

pub mod config;
pub mod fs;
pub mod mem;
pub mod net;
pub mod sync;
pub mod system;
pub mod tasks;
pub mod util;

pub use crate::fs::littlefs::{File, FileSystem, FileType, Metadata, OpenOptions};
pub use crate::fs::partition::{Partition, PartitionTable, PartitionType};
pub use crate::fs::storage::{FlashStorage, StorageError};
pub use crate::mem::dma::{DmaBuffer, DmaStrategy};
pub use crate::mem::pool::{MemoryPool, PoolBox};
pub use crate::mem::psram::{CacheMode, PsramBox, PsramConfig, PsramError, PsramInfo, PsramStats};
pub use crate::sync::ringbuffer::RingBuffer;
pub use crate::tasks::multicore::{
    Core1, CoreAssignment, CoreId, IpcChannel, IpcSemaphore, IpcSignal,
};

use vstd::prelude::*;

verus! {

/// Version of the library.
pub const VERSION: &'static str = "0.1.0";

/// Name of the library.
pub const NAME: &'static str = "rustrtos";

} // verus!
