//! How a logical value maps to a physical pin level or duty cycle, given
//! whether the device is active-high or active-low.
use vstd::prelude::*;

use crate::waveform::DUTY_SCALE;

verus! {

/// The physical duty cycle that carries logical duty `duty`: the same when
/// active-high, its complement when active-low.
pub open spec fn physical_duty(active_high: bool, duty: int) -> int {
    if active_high {
        duty
    } else {
        DUTY_SCALE as int - duty
    }
}

/// The physical duty cycle to write for logical duty `duty`.
pub fn to_physical_duty(active_high: bool, duty: u32) -> (r: u32)
    requires
        duty <= DUTY_SCALE,
    ensures
        r == physical_duty(active_high, duty as int),
        r <= DUTY_SCALE,
{
    if active_high {
        duty
    } else {
        DUTY_SCALE - duty
    }
}

/// Translating twice gives the logical duty back: a change of polarity
/// swaps which physical level means active and nothing else.
pub proof fn lemma_physical_duty_involution(active_high: bool, duty: int)
    ensures
        physical_duty(active_high, physical_duty(active_high, duty)) == duty,
{
}

/// The pin level that carries logical value `value`.
pub fn value_to_state(active_high: bool, value: bool) -> (r: bool)
    ensures
        r == (value == active_high),
{
    if value {
        active_high
    } else {
        !active_high
    }
}

/// The logical value that pin level `state` carries.
pub fn state_to_value(active_high: bool, state: bool) -> (r: bool)
    ensures
        r == (state == active_high),
{
    state == active_high
}

/// A plain on/off output: the level to write for each request, given its
/// polarity. The pin itself is driven by the caller.
#[derive(Clone, Copy, Debug, PartialEq, Eq, Structural)]
pub struct OutputDevice {
    active_high: bool,
}

impl OutputDevice {
    pub closed spec fn spec_active_high(self) -> bool {
        self.active_high
    }

    /// An active-high output.
    pub fn new() -> (r: OutputDevice)
        ensures
            r.spec_active_high(),
    {
        OutputDevice { active_high: true }
    }

    /// Whether a high level means active.
    pub fn active_high(&self) -> (r: bool)
        ensures
            r == self.spec_active_high(),
    {
        self.active_high
    }

    /// Sets the polarity; the pin keeps its level, only its meaning changes.
    pub fn set_active_high(&mut self, value: bool)
        ensures
            final(self).spec_active_high() == value,
    {
        self.active_high = value;
    }

    /// The logical value that a pin at level `level` has.
    pub fn value(&self, level: bool) -> (r: bool)
        ensures
            r == (level == self.spec_active_high()),
    {
        state_to_value(self.active_high, level)
    }

    /// The level that turns the device on.
    pub fn on(&self) -> (r: bool)
        ensures
            r == self.spec_active_high(),
    {
        value_to_state(self.active_high, true)
    }

    /// The level that turns the device off.
    pub fn off(&self) -> (r: bool)
        ensures
            r == !self.spec_active_high(),
    {
        value_to_state(self.active_high, false)
    }

    /// The level that reverses the device, given the level it is at: off if
    /// it is on, on if it is off.
    pub fn toggle(&self, level: bool) -> (r: bool)
        ensures
            r == !level,
            (r == self.spec_active_high()) == !(level == self.spec_active_high()),
    {
        if self.value(level) {
            self.off()
        } else {
            self.on()
        }
    }
}

/// A plain input: which logical value a pin level means. A pull-up input is
/// active when low, a pull-down input active when high.
#[derive(Clone, Copy, Debug, PartialEq, Eq, Structural)]
pub struct InputDevice {
    pull_up: bool,
}

impl InputDevice {
    pub closed spec fn spec_pull_up(self) -> bool {
        self.pull_up
    }

    /// An input with the pin pulled low: active when high.
    pub fn new() -> (r: InputDevice)
        ensures
            !r.spec_pull_up(),
    {
        InputDevice { pull_up: false }
    }

    /// An input with the pin pulled high: active when low.
    pub fn new_with_pullup() -> (r: InputDevice)
        ensures
            r.spec_pull_up(),
    {
        InputDevice { pull_up: true }
    }

    /// Whether the pin is pulled high.
    pub fn pull_up(&self) -> (r: bool)
        ensures
            r == self.spec_pull_up(),
    {
        self.pull_up
    }

    /// Whether a pin at level `level` means active.
    pub fn value(&self, level: bool) -> (r: bool)
        ensures
            r == (level != self.spec_pull_up()),
    {
        state_to_value(!self.pull_up, level)
    }
}

} // verus!
