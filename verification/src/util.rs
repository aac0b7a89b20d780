//! Bounded text and byte strings, and arithmetic on powers of two.

pub mod bounded;
pub mod pow2;
