//! Cache maintenance for memory that a DMA engine shares with the CPU.
//!
//! The instructions themselves belong to the hardware layer. This module
//! decides which cache lines an operation on a range of memory touches.

use vstd::prelude::*;

verus! {

/// Size of one cache line in bytes.
pub const CACHE_LINE_SIZE: usize = 32;

/// Cache maintenance that the caller performs on a range of memory.
#[derive(Debug, Clone, Copy, PartialEq, Eq, Structural)]
pub enum CacheMaintenance {
    /// Write cached data back to memory, so that a peripheral sees it.
    Flush,
    /// Discard cached data, so that later reads fetch memory.
    Invalidate,
}

/// The cache lines that one maintenance operation works on: `lines` lines,
/// one every `CACHE_LINE_SIZE` bytes from `start` on. A memory barrier
/// follows the last line.
#[derive(Debug, Clone, Copy, PartialEq, Eq, Structural)]
pub struct CachePlan {
    /// What to do with each line.
    pub op: CacheMaintenance,
    /// Address handed to the first line operation.
    pub start: usize,
    /// Number of line operations.
    pub lines: usize,
}

/// Number of steps of `CACHE_LINE_SIZE` bytes that cover `size` bytes.
pub open spec fn lines_covering(size: int) -> int {
    (size + CACHE_LINE_SIZE - 1) / (CACHE_LINE_SIZE as int)
}

fn plan(op: CacheMaintenance, addr: usize, size: usize) -> (r: CachePlan)
    ensures
        r.op == op,
        r.start == addr,
        r.lines == lines_covering(size as int),
{
    let full = size / CACHE_LINE_SIZE;
    let lines = if size % CACHE_LINE_SIZE == 0 {
        full
    } else {
        full + 1
    };
    CachePlan { op, start: addr, lines }
}

/// Plans writing the `size` bytes at `addr` back to memory.
pub fn flush(addr: usize, size: usize) -> (r: CachePlan)
    ensures
        r.op == CacheMaintenance::Flush,
        r.start == addr,
        r.lines == lines_covering(size as int),
{
    plan(CacheMaintenance::Flush, addr, size)
}

/// Plans discarding the cached copies of the `size` bytes at `addr`.
pub fn invalidate(addr: usize, size: usize) -> (r: CachePlan)
    ensures
        r.op == CacheMaintenance::Invalidate,
        r.start == addr,
        r.lines == lines_covering(size as int),
{
    plan(CacheMaintenance::Invalidate, addr, size)
}

/// Plans a flush of the `size` bytes at `addr` and then an invalidation of
/// the same bytes.
pub fn flush_and_invalidate(addr: usize, size: usize) -> (r: (CachePlan, CachePlan))
    ensures
        r.0.op == CacheMaintenance::Flush,
        r.1.op == CacheMaintenance::Invalidate,
        r.0.start == addr && r.1.start == addr,
        r.0.lines == lines_covering(size as int) && r.1.lines == lines_covering(size as int),
{
    (flush(addr, size), invalidate(addr, size))
}

impl CachePlan {
    /// Address handed to line operation number `index`, or `None` where the
    /// plan has no such line or the address does not fit the machine word.
    pub fn line_address(&self, index: usize) -> (r: Option<usize>)
        ensures
            r is Some <==> index < self.lines && self.start + index * CACHE_LINE_SIZE
                <= usize::MAX,
            r matches Some(a) ==> a == self.start + index * CACHE_LINE_SIZE,
    {
        if index >= self.lines {
            return None;
        }
        match index.checked_mul(CACHE_LINE_SIZE) {
            Some(offset) => self.start.checked_add(offset),
            None => None,
        }
    }
}

} // verus!
