//! Push buttons and the debouncing of their presses.
use vstd::prelude::*;

use crate::polarity::InputDevice;

verus! {

/// A generic input with on/off behaviour.
pub type DigitalInputDevice = InputDevice;

/// A push button or switch: pulled high and active when low, unless made
/// with a pull-down.
#[derive(Clone, Copy, Debug, PartialEq, Eq, Structural)]
pub struct Button {
    input: InputDevice,
}

impl Button {
    pub closed spec fn spec_pull_up(self) -> bool {
        self.input.spec_pull_up()
    }

    /// A button between the pin and ground, the pin pulled high.
    pub fn new() -> (r: Button)
        ensures
            r.spec_pull_up(),
    {
        Button { input: InputDevice::new_with_pullup() }
    }

    /// A button between the pin and 3.3 V, the pin pulled low.
    pub fn new_with_pulldown() -> (r: Button)
        ensures
            !r.spec_pull_up(),
    {
        Button { input: InputDevice::new() }
    }

    /// Whether the pin is pulled high.
    pub fn pull_up(&self) -> (r: bool)
        ensures
            r == self.spec_pull_up(),
    {
        self.input.pull_up()
    }

    /// Whether a pin at level `level` means pressed.
    pub fn is_pressed(&self, level: bool) -> (r: bool)
        ensures
            r == (level != self.spec_pull_up()),
    {
        self.input.value(level)
    }

    /// This button, with presses closer than `period_ms` to the last one ignored.
    pub fn debounce(self, period_ms: u64) -> (r: Debounced)
        ensures
            r.spec_button() == self,
            r.spec_period() == period_ms,
            r.spec_last_trigger() is None,
    {
        Debounced { inner: self, period_ms, last_trigger_ms: None }
    }
}

/// Milliseconds from `last` to `now`; zero if `now` is not later.
pub open spec fn elapsed_ms(last: u64, now: u64) -> nat {
    if now >= last {
        (now - last) as nat
    } else {
        0
    }
}

/// A button whose triggers closer than a period to the last accepted one
/// are ignored.
#[derive(Clone, Copy, Debug, PartialEq, Eq, Structural)]
pub struct Debounced {
    inner: Button,
    period_ms: u64,
    last_trigger_ms: Option<u64>,
}

impl Debounced {
    pub closed spec fn spec_button(self) -> Button {
        self.inner
    }

    pub closed spec fn spec_period(self) -> u64 {
        self.period_ms
    }

    pub closed spec fn spec_last_trigger(self) -> Option<u64> {
        self.last_trigger_ms
    }

    /// The button underneath.
    pub fn button(&self) -> (r: Button)
        ensures
            r == self.spec_button(),
    {
        self.inner
    }

    /// The debounce period, in milliseconds.
    pub fn period_ms(&self) -> (r: u64)
        ensures
            r == self.spec_period(),
    {
        self.period_ms
    }

    /// Decides on a trigger at time `now_ms`: it is accepted, and becomes the
    /// last trigger, unless it comes less than the period after the last
    /// accepted one. An ignored trigger changes nothing.
    pub fn accept(&mut self, now_ms: u64) -> (r: bool)
        ensures
            r == match old(self).spec_last_trigger() {
                None => true,
                Some(last) => elapsed_ms(last, now_ms) >= old(self).spec_period(),
            },
            final(self).spec_button() == old(self).spec_button(),
            final(self).spec_period() == old(self).spec_period(),
            final(self).spec_last_trigger() == if r {
                Some(now_ms)
            } else {
                old(self).spec_last_trigger()
            },
    {
        match self.last_trigger_ms {
            Some(last) => {
                let elapsed = if now_ms >= last {
                    now_ms - last
                } else {
                    0
                };
                if elapsed < self.period_ms {
                    return false;
                }
            },
            None => {},
        }
        self.last_trigger_ms = Some(now_ms);
        true
    }
}

} // verus!
