//! A motor on a bi-directional driver (an H-bridge): two PWM channels, one per
//! direction, and a speed.
use vstd::prelude::*;

use crate::driver::{OutputView, PWMOutputDevice, PinWrite};
use crate::error::RangeError;
use crate::waveform::DUTY_SCALE;

verus! {

/// A motor driven forwards by one PWM channel and backwards by another.
pub struct Motor {
    forward: PWMOutputDevice,
    backward: PWMOutputDevice,
    speed: u32,
}

impl Motor {
    pub closed spec fn wf(&self) -> bool {
        self.forward.wf() && self.backward.wf() && self.speed <= DUTY_SCALE
    }

    pub closed spec fn forward_view(&self) -> OutputView {
        self.forward@
    }

    pub closed spec fn backward_view(&self) -> OutputView {
        self.backward@
    }

    pub closed spec fn spec_speed(&self) -> nat {
        self.speed as nat
    }

    /// A stopped motor set to full speed.
    pub fn new() -> (r: Motor)
        ensures
            r.wf(),
            r.spec_speed() == DUTY_SCALE,
            r.forward_view().value == 0 && !r.forward_view().running(),
            r.backward_view().value == 0 && !r.backward_view().running(),
    {
        Motor { forward: PWMOutputDevice::new(), backward: PWMOutputDevice::new(), speed: DUTY_SCALE }
    }

    /// The speed used by `forward` and `backward`, in parts per million.
    pub fn speed(&self) -> (r: u32)
        ensures
            r == self.spec_speed(),
    {
        self.speed
    }

    /// Drives forwards at the current speed: first the backward channel is
    /// turned off (the first write), then the forward channel set (the second).
    pub fn forward(&mut self) -> (r: (PinWrite, PinWrite))
        requires
            old(self).wf(),
        ensures
            final(self).wf(),
            final(self).spec_speed() == old(self).spec_speed(),
            final(self).backward_view() == old(self).backward_view().with_value(0),
            final(self).forward_view() == old(self).forward_view().with_value(old(self).spec_speed()),
            r.0 == old(self).backward_view().write_of(0),
            r.1 == old(self).forward_view().write_of(old(self).spec_speed() as int),
    {
        let first = self.backward.off();
        let second = self.forward.write_value(self.speed);
        (first, second)
    }

    /// Drives backwards at the current speed: first the forward channel is
    /// turned off (the first write), then the backward channel set (the second).
    pub fn backward(&mut self) -> (r: (PinWrite, PinWrite))
        requires
            old(self).wf(),
        ensures
            final(self).wf(),
            final(self).spec_speed() == old(self).spec_speed(),
            final(self).forward_view() == old(self).forward_view().with_value(0),
            final(self).backward_view() == old(self).backward_view().with_value(old(self).spec_speed()),
            r.0 == old(self).forward_view().write_of(0),
            r.1 == old(self).backward_view().write_of(old(self).spec_speed() as int),
    {
        let first = self.forward.off();
        let second = self.backward.write_value(self.speed);
        (first, second)
    }

    /// Stops the motor: both channels off, forward first.
    pub fn stop(&mut self) -> (r: (PinWrite, PinWrite))
        requires
            old(self).wf(),
        ensures
            final(self).wf(),
            final(self).spec_speed() == old(self).spec_speed(),
            final(self).forward_view() == old(self).forward_view().with_value(0),
            final(self).backward_view() == old(self).backward_view().with_value(0),
            r.0 == old(self).forward_view().write_of(0),
            r.1 == old(self).backward_view().write_of(0),
    {
        let first = self.forward.off();
        let second = self.backward.off();
        (first, second)
    }

    /// Sets the speed for the next `forward` or `backward`, in parts per
    /// million. A speed outside `0..=DUTY_SCALE` is refused and changes nothing.
    pub fn set_speed(&mut self, speed: i64) -> (r: Result<(), RangeError>)
        requires
            old(self).wf(),
        ensures
            final(self).wf(),
            (0 <= speed <= DUTY_SCALE) <==> r is Ok,
            r is Ok ==> final(self).spec_speed() == speed,
            r matches Err(e) ==> e == RangeError::OutOfRange && final(self).spec_speed() == old(
                self,
            ).spec_speed(),
            final(self).forward_view() == old(self).forward_view(),
            final(self).backward_view() == old(self).backward_view(),
    {
        if speed < 0 || speed > DUTY_SCALE as i64 {
            return Err(RangeError::OutOfRange);
        }
        self.speed = speed as u32;
        Ok(())
    }
}

} // verus!
