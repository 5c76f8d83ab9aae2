//! A servo driven by software PWM: pulse widths for its minimum, maximum,
//! neutral and any intermediate position.
use vstd::prelude::*;
use vstd::arithmetic::div_mod::{lemma_div_is_ordered, lemma_div_multiples_vanish_fancy, lemma_div_pos_is_pos};

use crate::error::RangeError;
use crate::waveform::DUTY_SCALE;

verus! {

/// One PWM setting of a servo: a pulse of `pulse_us` microseconds every
/// `period_ms` milliseconds.
#[derive(Clone, Copy, Debug, PartialEq, Eq, Structural)]
pub struct ServoPulse {
    pub period_ms: u64,
    pub pulse_us: u64,
}

/// Pulse width for position `value` (parts per million, from `-DUTY_SCALE`
/// for the minimum to `DUTY_SCALE` for the maximum): the position mapped
/// linearly onto `min_us..=max_us` and rounded to the nearest microsecond,
/// halves up.
pub open spec fn position_pulse_us(min_us: int, max_us: int, value: int) -> int {
    let s = DUTY_SCALE as int;
    min_us + ((value + s) * (max_us - min_us) + s) / (2 * s)
}

/// A servo's pulse widths (microseconds) and frame width (milliseconds).
#[derive(Clone, Copy, Debug, PartialEq, Eq, Structural)]
pub struct Servo {
    min_pulse_width: u64,
    max_pulse_width: u64,
    frame_width: u64,
}

impl Servo {
    pub closed spec fn wf(&self) -> bool {
        self.min_pulse_width < self.max_pulse_width
    }

    pub closed spec fn spec_min(&self) -> nat {
        self.min_pulse_width as nat
    }

    pub closed spec fn spec_max(&self) -> nat {
        self.max_pulse_width as nat
    }

    pub closed spec fn spec_frame(&self) -> nat {
        self.frame_width as nat
    }

    /// A servo with pulses of 1 ms to 2 ms in a frame of 20 ms.
    pub fn new() -> (r: Servo)
        ensures
            r.wf(),
            r.spec_min() == 1000 && r.spec_max() == 2000 && r.spec_frame() == 20,
    {
        Servo { min_pulse_width: 1000, max_pulse_width: 2000, frame_width: 20 }
    }

    /// The setting for the minimum position.
    pub fn min(&self) -> (r: ServoPulse)
        ensures
            r == (ServoPulse { period_ms: self.spec_frame() as u64, pulse_us: self.spec_min() as u64 }),
    {
        ServoPulse { period_ms: self.frame_width, pulse_us: self.min_pulse_width }
    }

    /// The setting for the maximum position.
    pub fn max(&self) -> (r: ServoPulse)
        ensures
            r == (ServoPulse { period_ms: self.spec_frame() as u64, pulse_us: self.spec_max() as u64 }),
    {
        ServoPulse { period_ms: self.frame_width, pulse_us: self.max_pulse_width }
    }

    /// The setting for the neutral position: the mean of the two pulse
    /// widths, rounded down.
    pub fn mid(&self) -> (r: ServoPulse)
        requires
            self.wf(),
        ensures
            r.period_ms == self.spec_frame(),
            r.pulse_us == (self.spec_min() + self.spec_max()) / 2,
    {
        let mid = self.min_pulse_width + (self.max_pulse_width - self.min_pulse_width) / 2;
        ServoPulse { period_ms: self.frame_width, pulse_us: mid }
    }

    /// The setting for position `value`, from `-DUTY_SCALE` (minimum) to
    /// `DUTY_SCALE` (maximum). A position outside that range is refused.
    pub fn set_position(&self, value: i64) -> (r: Result<ServoPulse, RangeError>)
        requires
            self.wf(),
        ensures
            (-DUTY_SCALE <= value <= DUTY_SCALE) <==> r is Ok,
            r matches Err(e) ==> e == RangeError::OutOfRange,
            r matches Ok(p) ==> p.period_ms == self.spec_frame() && p.pulse_us == position_pulse_us(
                self.spec_min() as int,
                self.spec_max() as int,
                value as int,
            ),
    {
        if value < -(DUTY_SCALE as i64) || value > DUTY_SCALE as i64 {
            return Err(RangeError::OutOfRange);
        }
        let s: u128 = DUTY_SCALE as u128;
        let offset: u128 = (value + DUTY_SCALE as i64) as u128;
        let range: u128 = (self.max_pulse_width - self.min_pulse_width) as u128;
        proof {
            let (o, g, si) = (offset as int, range as int, s as int);
            assert(o * g <= 2 * si * g) by (nonlinear_arith)
                requires
                    0 <= o <= 2 * si,
                    0 <= g,
            ;
            assert(o * g + si < 2 * si * (g + 1)) by (nonlinear_arith)
                requires
                    o * g <= 2 * si * g,
                    si > 0,
            ;
            assert(2 * si * g + si < 0x1_0000_0000_0000_0000_0000_0000_0000_0000) by (nonlinear_arith)
                requires
                    g < 0x1_0000_0000_0000_0000,
                    si == 1_000_000,
            ;
            lemma_div_is_ordered(o * g + si, 2 * si * g + si, 2 * si);
            lemma_div_multiples_vanish_fancy(g, si, 2 * si);
            lemma_div_pos_is_pos(o * g + si, 2 * si);
        }
        let step: u128 = (offset * range + s) / (2 * s);
        let pulse: u64 = self.min_pulse_width + step as u64;
        Ok(ServoPulse { period_ms: self.frame_width, pulse_us: pulse })
    }

    /// Sets the minimum pulse width (microseconds); it must stay below the
    /// maximum, else it is refused and nothing changes.
    pub fn set_min_pulse_width(&mut self, value: u64) -> (r: Result<(), RangeError>)
        requires
            old(self).wf(),
        ensures
            final(self).wf(),
            (value < old(self).spec_max()) <==> r is Ok,
            r matches Err(e) ==> e == RangeError::OutOfRange && *final(self) == *old(self),
            r is Ok ==> final(self).spec_min() == value && final(self).spec_max() == old(self).spec_max()
                && final(self).spec_frame() == old(self).spec_frame(),
    {
        if value >= self.max_pulse_width {
            return Err(RangeError::OutOfRange);
        }
        self.min_pulse_width = value;
        Ok(())
    }

    /// Sets the maximum pulse width (microseconds); it must stay above the
    /// minimum and below the frame width, else it is refused and nothing changes.
    pub fn set_max_pulse_width(&mut self, value: u64) -> (r: Result<(), RangeError>)
        requires
            old(self).wf(),
        ensures
            final(self).wf(),
            (old(self).spec_min() < value < old(self).spec_frame() * 1000) <==> r is Ok,
            r matches Err(e) ==> e == RangeError::OutOfRange && *final(self) == *old(self),
            r is Ok ==> final(self).spec_max() == value && final(self).spec_min() == old(self).spec_min()
                && final(self).spec_frame() == old(self).spec_frame(),
    {
        if value <= self.min_pulse_width || value / 1000 >= self.frame_width {
            return Err(RangeError::OutOfRange);
        }
        self.max_pulse_width = value;
        Ok(())
    }

    /// Sets the frame width: the time between pulses, in milliseconds.
    pub fn set_frame_width(&mut self, value: u64)
        requires
            old(self).wf(),
        ensures
            final(self).wf(),
            final(self).spec_frame() == value && final(self).spec_min() == old(self).spec_min()
                && final(self).spec_max() == old(self).spec_max(),
    {
        self.frame_width = value;
    }

    /// The minimum pulse width, in microseconds.
    pub fn get_min_pulse_width(&self) -> (r: u64)
        ensures
            r == self.spec_min(),
    {
        self.min_pulse_width
    }

    /// The maximum pulse width, in microseconds.
    pub fn get_max_pulse_width(&self) -> (r: u64)
        ensures
            r == self.spec_max(),
    {
        self.max_pulse_width
    }

    /// The frame width, in milliseconds.
    pub fn get_frame_width(&self) -> (r: u64)
        ensures
            r == self.spec_frame(),
    {
        self.frame_width
    }
}

} // verus!
