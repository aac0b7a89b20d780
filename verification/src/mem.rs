//! Memory management: occupancy bitmaps, the fixed-block pool, DMA buffers
//! and the bump allocator for external RAM.

pub mod bitmap;
pub mod bits;
pub mod dma;
pub mod pool;
pub mod psram;
