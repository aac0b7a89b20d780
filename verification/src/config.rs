//! Fixed settings of the system.

use vstd::prelude::*;

verus! {

/// Clock of the CPU, in Hz.
pub const CPU_FREQ_HZ: u32 = 240_000_000;

/// Rate of the system tick, in Hz.
pub const TICK_FREQ_HZ: u32 = 1_000_000;

/// Interrupt priority of the most urgent tasks.
pub const HIGH_PRIORITY: u8 = 3;

/// Interrupt priority of the tasks in between.
pub const MID_PRIORITY: u8 = 2;

/// Interrupt priority of the least urgent tasks.
pub const LOW_PRIORITY: u8 = 1;

/// Interrupt priority of the traffic between the cores.
pub const IPC_PRIORITY: u8 = 2;

/// Size of a task's stack, in bytes, where none is given.
pub const DEFAULT_STACK_SIZE: usize = 4096;

/// Smallest size of a task's stack, in bytes.
pub const MIN_STACK_SIZE: usize = 512;

/// Size of a ring buffer where none is given.
pub const DEFAULT_RINGBUF_SIZE: usize = 256;

/// Address at which the external RAM is mapped.
pub const PSRAM_BASE: u32 = 0x3C00_0000;

/// Size of the external RAM, in bytes.
pub const PSRAM_SIZE: usize = 0x80_0000;

/// Alignment of DMA buffers: one cache line.
pub const DMA_ALIGNMENT: usize = 32;

/// Size of one flash block, in bytes.
pub const FLASH_BLOCK_SIZE: u32 = 4096;

} // verus!
