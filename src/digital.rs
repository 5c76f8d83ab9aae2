//! On/off outputs (LEDs, buzzers): the same driver, restricted to full and
//! zero duty, with a blink of two steps.
use vstd::prelude::*;

use crate::driver::{OutputView, PWMOutputDevice, PinWrite, PlaybackView, StepAction};
use crate::error::{NotRunningError, RangeError};
use crate::waveform::{waveform_of, BlinkSpec, DUTY_SCALE, SAMPLE_RATE};

verus! {

/// An output that is either on or off, with a blink played in the background.
pub struct DigitalOutputDevice {
    device: PWMOutputDevice,
}

/// A light emitting diode.
pub type LED = DigitalOutputDevice;

/// A buzzer.
pub type Buzzer = DigitalOutputDevice;

impl View for DigitalOutputDevice {
    type V = OutputView;

    closed spec fn view(&self) -> OutputView {
        self.device@
    }
}

impl DigitalOutputDevice {
    pub closed spec fn wf(&self) -> bool {
        self.device.wf()
    }

    /// An idle, active-high output that is off.
    pub fn new() -> (r: DigitalOutputDevice)
        ensures
            r.wf(),
            r@.active_high && r@.value == 0 && !r@.running() && r@.generation == 0,
    {
        DigitalOutputDevice { device: PWMOutputDevice::new() }
    }

    /// Whether the device is on.
    pub fn value(&self) -> (r: bool)
        ensures
            r == (self@.value > 0),
    {
        self.device.is_active()
    }

    /// Whether the device is on.
    pub fn is_active(&self) -> (r: bool)
        ensures
            r == (self@.value > 0),
    {
        self.device.is_active()
    }

    /// Whether the light is on.
    pub fn is_lit(&self) -> (r: bool)
        ensures
            r == (self@.value > 0),
    {
        self.device.is_active()
    }

    /// Whether a blink is running.
    pub fn is_running(&self) -> (r: bool)
        ensures
            r == self@.running(),
    {
        self.device.is_running()
    }

    /// The generation of the latest blink.
    pub fn generation(&self) -> (r: u64)
        ensures
            r == self@.generation,
    {
        self.device.generation()
    }

    /// Whether a high level means on.
    pub fn active_high(&self) -> (r: bool)
        ensures
            r == self@.active_high,
    {
        self.device.active_high()
    }

    /// Sets the polarity of every later write.
    pub fn set_active_high(&mut self, value: bool)
        requires
            old(self).wf(),
        ensures
            final(self).wf(),
            final(self)@ == (OutputView { active_high: value, ..old(self)@ }),
    {
        self.device.set_active_high(value)
    }

    /// Cancels any blink and turns the device on.
    pub fn on(&mut self) -> (r: PinWrite)
        requires
            old(self).wf(),
        ensures
            final(self).wf(),
            final(self)@ == old(self)@.with_value(DUTY_SCALE as nat),
            r == old(self)@.write_of(DUTY_SCALE as int),
    {
        self.device.on()
    }

    /// Cancels any blink and turns the device off.
    pub fn off(&mut self) -> (r: PinWrite)
        requires
            old(self).wf(),
        ensures
            final(self).wf(),
            final(self)@ == old(self)@.with_value(0),
            r == old(self)@.write_of(0),
    {
        self.device.off()
    }

    /// Turns the device off if it is on and on if it is off; does nothing
    /// while a blink runs.
    pub fn toggle(&mut self) -> (r: Option<PinWrite>)
        requires
            old(self).wf(),
        ensures
            final(self).wf(),
            old(self)@.running() ==> r is None && final(self)@ == old(self)@,
            !old(self)@.running() && old(self)@.value > 0 ==> r == Some(old(self)@.write_of(0))
                && final(self)@ == old(self)@.with_value(0),
            !old(self)@.running() && old(self)@.value == 0 ==> r == Some(
                old(self)@.write_of(DUTY_SCALE as int),
            ) && final(self)@ == old(self)@.with_value(DUTY_SCALE as nat),
    {
        self.device.toggle()
    }

    /// Replaces any blink by one that is on for `on_ms` and off for `off_ms`,
    /// `repeat` times (`None`: until cancelled). Returns its generation. A
    /// repeat of zero, or both times zero, is refused and changes nothing.
    pub fn blink(&mut self, on_ms: u64, off_ms: u64, repeat: Option<u32>) -> (r: Result<
        u64,
        RangeError,
    >)
        requires
            old(self).wf(),
            old(self)@.generation < u64::MAX,
        ensures
            final(self).wf(),
            ({
                let spec = BlinkSpec { on_ms, off_ms, fade_in_ms: 0, fade_out_ms: 0 };
                &&& repeat == Some(0u32) ==> r == Err::<u64, RangeError>(RangeError::ZeroRepeat)
                &&& repeat != Some(0u32) && spec.is_empty() ==> r == Err::<u64, RangeError>(
                    RangeError::EmptyWaveform,
                )
                &&& r is Err ==> final(self)@ == old(self)@
                &&& r is Ok <==> repeat != Some(0u32) && !spec.is_empty()
                &&& r is Ok ==> r == Ok::<u64, RangeError>((old(self)@.generation + 1) as u64)
                    && final(self)@ == (OutputView {
                    generation: old(self)@.generation + 1,
                    playback: Some(
                        PlaybackView {
                            steps: waveform_of(spec, SAMPLE_RATE as nat),
                            repeat,
                            index: 0,
                            passes: 0,
                        },
                    ),
                    ..old(self)@
                })
            }),
    {
        self.device.blink(on_ms, off_ms, 0, 0, repeat)
    }

    /// A buzzer's blink: on for `on_ms`, off for `off_ms`, `repeat` times.
    pub fn beep(&mut self, on_ms: u64, off_ms: u64, repeat: Option<u32>) -> (r: Result<
        u64,
        RangeError,
    >)
        requires
            old(self).wf(),
            old(self)@.generation < u64::MAX,
        ensures
            final(self).wf(),
            ({
                let spec = BlinkSpec { on_ms, off_ms, fade_in_ms: 0, fade_out_ms: 0 };
                &&& r is Ok <==> repeat != Some(0u32) && !spec.is_empty()
                &&& r is Err ==> final(self)@ == old(self)@
                &&& repeat == Some(0u32) ==> r == Err::<u64, RangeError>(RangeError::ZeroRepeat)
                &&& repeat != Some(0u32) && spec.is_empty() ==> r == Err::<u64, RangeError>(
                    RangeError::EmptyWaveform,
                )
                &&& r is Ok ==> r == Ok::<u64, RangeError>((old(self)@.generation + 1) as u64)
                    && final(self)@ == (OutputView {
                    generation: old(self)@.generation + 1,
                    playback: Some(
                        PlaybackView {
                            steps: waveform_of(spec, SAMPLE_RATE as nat),
                            repeat,
                            index: 0,
                            passes: 0,
                        },
                    ),
                    ..old(self)@
                })
            }),
    {
        self.blink(on_ms, off_ms, repeat)
    }

    /// Cancels any blink without writing. Returns whether one was running.
    pub fn stop(&mut self) -> (r: bool)
        requires
            old(self).wf(),
        ensures
            final(self).wf(),
            r == old(self)@.running(),
            final(self)@ == (OutputView { playback: None, ..old(self)@ }),
    {
        self.device.stop()
    }

    /// Whether there is a blink to wait for; `Ok` carries its generation.
    pub fn wait(&self) -> (r: Result<u64, NotRunningError>)
        ensures
            r is Ok <==> self@.running(),
            r matches Ok(g) ==> g == self@.generation,
    {
        self.device.wait()
    }

    /// The next step of the blink of generation `generation`, as for
    /// `PWMOutputDevice::playback_step`.
    pub fn playback_step(&mut self, generation: u64) -> (r: StepAction)
        requires
            old(self).wf(),
        ensures
            final(self).wf(),
            generation != old(self)@.generation || !old(self)@.running() ==> r
                == StepAction::Finished && final(self)@ == old(self)@,
            generation == old(self)@.generation ==> match old(self)@.playback {
                None => true,
                Some(p) => if p.finished() {
                    r == StepAction::Finished && final(self)@ == (OutputView {
                        playback: None,
                        ..old(self)@
                    })
                } else {
                    &&& r == (StepAction::Write {
                        write: old(self)@.write_of(p.current().duty as int),
                        hold_ms: p.current().hold_ms,
                    })
                    &&& final(self)@ == (OutputView {
                        value: p.current().duty as nat,
                        playback: Some(p.advanced()),
                        writes: old(self)@.writes.push(old(self)@.generation),
                        ..old(self)@
                    })
                },
            },
    {
        self.device.playback_step(generation)
    }
}

} // verus!
