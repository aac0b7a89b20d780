//! Helpers of the tasks at normal priority: the filter of the periodic
//! task and the state of the indicator light.

use vstd::prelude::*;

verus! {

/// The low-pass filter's next state for the state `state` and the reading
/// `value`: seven eighths of the state and one eighth of the reading.
pub open spec fn spec_filter_step(state: u32, value: u32) -> u32 {
    (state - state / 8 + value / 8) as u32
}

/// One step of the low-pass filter of the periodic task.
pub fn process_sensor_data(state: u32, value: u32) -> (r: u32)
    requires
        state - state / 8 + value / 8 <= u32::MAX,
    ensures
        r == spec_filter_step(state, value),
{
    proof {
        assert(state >> 3 == state / 8) by (bit_vector);
        assert(value >> 3 == value / 8) by (bit_vector);
    }
    state - (state >> 3) + (value >> 3)
}

/// Readings per round of the background task, for `total_samples` readings
/// after `iteration` rounds; before the first round, all of them.
pub fn samples_per_round(total_samples: u64, iteration: u64) -> (r: u64)
    ensures
        r == if iteration == 0 {
            total_samples as int
        } else {
            total_samples as int / iteration as int
        },
{
    if iteration == 0 {
        total_samples
    } else {
        total_samples / iteration
    }
}

/// Whether the periodic task reports after `processed` rounds: after every
/// hundredth.
pub fn is_report_round(processed: u64) -> (r: bool)
    ensures
        r == (processed % 100 == 0),
{
    processed % 100 == 0
}

/// What the indicator task does next.
#[derive(Debug, Clone, Copy, PartialEq, Eq, Structural)]
pub enum LedEvent {
    /// The blink interval has passed.
    Tick,
    /// Another task asks for the light to be on or off.
    Force(bool),
}

/// The indicator light: whether it is on.
pub struct LedState {
    on: bool,
}

impl LedState {
    /// Whether the light is on.
    pub closed spec fn is_on(&self) -> bool {
        self.on
    }

    /// The light off.
    pub fn new() -> (r: Self)
        ensures
            !r.is_on(),
    {
        LedState { on: false }
    }

    /// Takes one event and returns the level to set: a tick toggles the
    /// light, a request sets it.
    pub fn step(&mut self, event: LedEvent) -> (level: bool)
        ensures
            level == final(self).is_on(),
            level == match event {
                LedEvent::Tick => !old(self).is_on(),
                LedEvent::Force(on) => on,
            },
    {
        match event {
            LedEvent::Tick => {
                self.on = !self.on;
            },
            LedEvent::Force(on) => {
                self.on = on;
            },
        }
        self.on
    }
}

/// The request that another task sends to the indicator task for the light
/// to be on or off.
pub fn set_led(on: bool) -> (r: LedEvent)
    ensures
        r == LedEvent::Force(on),
{
    LedEvent::Force(on)
}

/// The request for the light to be on.
pub fn led_on() -> (r: LedEvent)
    ensures
        r == LedEvent::Force(true),
{
    set_led(true)
}

/// The request for the light to be off.
pub fn led_off() -> (r: LedEvent)
    ensures
        r == LedEvent::Force(false),
{
    set_led(false)
}

} // verus!
