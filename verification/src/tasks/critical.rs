//! Helpers of the highest-priority tasks: the sensor readings that they
//! publish, and single-bit operations for interrupt handlers.

use vstd::prelude::*;

verus! {

/// The next state of the generator that stands in for a sensor.
pub open spec fn spec_next_seed(seed: u32) -> u32 {
    ((seed * 1103515245 + 12345) % 0x1_0000_0000) as u32
}

/// The reading that a generator state gives: its bits 16 to 31.
pub open spec fn spec_reading(seed: u32) -> u32 {
    (seed / 0x1_0000) as u32
}

/// One step of the generator that stands in for a sensor: the next state
/// and the reading that it gives.
pub fn simulate_sensor_read(seed: u32) -> (r: (u32, u32))
    ensures
        r.0 == spec_next_seed(seed),
        r.1 == spec_reading(r.0),
        r.1 <= 0xFFFF,
{
    let next = seed.wrapping_mul(1103515245).wrapping_add(12345);
    let reading = (next >> 16) & 0xFFFF;
    proof {
        assert((next >> 16) & 0xFFFF == next / 0x1_0000) by (bit_vector);
        assert(next / 0x1_0000 <= 0xFFFF);
        let product = seed * 1103515245;
        let wrapped = (product % 0x1_0000_0000) as u32;
        assert(seed.wrapping_mul(1103515245) == wrapped) by {
            vstd::arithmetic::div_mod::lemma_fundamental_div_mod(product, 0x1_0000_0000);
        }
        vstd::arithmetic::div_mod::lemma_add_mod_noop(product, 12345, 0x1_0000_0000);
        vstd::arithmetic::div_mod::lemma_small_mod(12345, 0x1_0000_0000);
    }
    (next, reading)
}

/// The latest sensor reading and the number of readings taken.
pub struct SensorState {
    value: u32,
    samples: u64,
}

/// How many readings lie between two notifications of the background task.
pub const SAMPLES_PER_NOTIFICATION: u64 = 10000;

impl SensorState {
    /// The latest reading.
    pub closed spec fn spec_value(&self) -> u32 {
        self.value
    }

    /// Number of readings taken, which wraps at the width of the counter.
    pub closed spec fn spec_samples(&self) -> u64 {
        self.samples
    }

    /// No reading taken yet.
    pub fn new() -> (r: Self)
        ensures
            r.spec_value() == 0,
            r.spec_samples() == 0,
    {
        SensorState { value: 0, samples: 0 }
    }

    /// Publishes the reading `value`, and returns whether the background
    /// task is to be notified: at every 10000th reading, the first included.
    pub fn record(&mut self, value: u32) -> (notify: bool)
        ensures
            final(self).spec_value() == value,
            final(self).spec_samples() == if old(self).spec_samples() == u64::MAX {
                0
            } else {
                old(self).spec_samples() + 1
            },
            notify == (old(self).spec_samples() % SAMPLES_PER_NOTIFICATION == 0),
    {
        self.value = value;
        let count = self.samples;
        self.samples = count.wrapping_add(1);
        count % SAMPLES_PER_NOTIFICATION == 0
    }

    /// The latest reading.
    pub fn get_sensor_value(&self) -> (r: u32)
        ensures
            r == self.spec_value(),
    {
        self.value
    }

    /// Number of readings taken.
    pub fn get_sample_count(&self) -> (r: u64)
        ensures
            r == self.spec_samples(),
    {
        self.samples
    }
}

/// The distance of the sampling interval `elapsed` from its target: the
/// jitter of one sample.
pub fn jitter(elapsed: u64, target: u64) -> (r: u64)
    ensures
        r == if elapsed > target {
            elapsed - target
        } else {
            target - elapsed
        },
{
    if elapsed > target {
        elapsed - target
    } else {
        target - elapsed
    }
}

/// Sets bit `bit` of `value`.
pub fn fast_bit_set(value: &mut u32, bit: u8)
    requires
        bit < 32,
    ensures
        *final(value) == *old(value) | (1u32 << bit),
{
    *value = *value | (1u32 << bit);
}

/// Clears bit `bit` of `value`.
pub fn fast_bit_clear(value: &mut u32, bit: u8)
    requires
        bit < 32,
    ensures
        *final(value) == *old(value) & !(1u32 << bit),
{
    *value = *value & !(1u32 << bit);
}

/// Whether bit `bit` of `value` is set.
pub fn fast_bit_test(value: u32, bit: u8) -> (r: bool)
    requires
        bit < 32,
    ensures
        r == (value & (1u32 << bit) != 0),
{
    (value & (1u32 << bit)) != 0
}

} // verus!
