//! Task placement on the two cores and the primitives that tasks on
//! different cores talk through.

pub mod critical;
pub mod multicore;
pub mod normal;
