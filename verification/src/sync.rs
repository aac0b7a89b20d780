//! Queues and flags for passing data between tasks, interrupt handlers and
//! cores.

pub mod atomic;
pub mod lockfree;
pub mod primitives;
pub mod ringbuffer;
