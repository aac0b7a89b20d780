//! Counters of the running system.

use vstd::prelude::*;

verus! {

/// Counters of the running system, kept together in one cache line.
pub struct SystemState {
    /// Time of the start, in microseconds.
    pub boot_time: u64,
    /// Number of task switches.
    pub context_switches: u32,
    /// State flags.
    pub flags: u32,
}

impl SystemState {
    /// All counters at 0.
    pub fn new() -> (r: Self)
        ensures
            r.boot_time == 0,
            r.context_switches == 0,
            r.flags == 0,
    {
        SystemState { boot_time: 0, context_switches: 0, flags: 0 }
    }

    /// Takes the count of one heartbeat: the flags carry its lowest 32
    /// bits. Returns whether the heartbeat is one to report, which every
    /// tenth is.
    pub fn heartbeat(&mut self, tick_count: u64) -> (report: bool)
        ensures
            final(self).flags == tick_count as u32,
            final(self).boot_time == old(self).boot_time,
            final(self).context_switches == old(self).context_switches,
            report == (tick_count % 10 == 0),
    {
        self.flags = #[verifier::truncate] (tick_count as u32);
        tick_count % 10 == 0
    }
}

} // verus!
