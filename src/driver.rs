//! The software PWM output: its value, its polarity, and the background
//! playback of a blink or pulse waveform.
//!
//! The device is a state machine. The caller keeps it behind one lock together
//! with the pin, performs each returned `PinWrite` while still holding that
//! lock, and runs a playback by calling `playback_step` with the generation
//! that `blink` handed out, sleeping for each step's hold time in between.
//! A playback that has been cancelled or replaced is told `Finished` on its
//! next step and never writes again, so the writes to the pin come in
//! generation order.
use vstd::prelude::*;

use crate::error::{NotRunningError, RangeError};
use crate::polarity::{physical_duty, to_physical_duty};
use crate::waveform::{
    generate, lemma_waveform_in_range, waveform_of, BlinkSpec, WaveformStep, DUTY_SCALE,
    SAMPLE_RATE,
};

verus! {

/// A physical duty cycle to write to the pin, tagged with the playback
/// generation in force when it was decided.
#[derive(Clone, Copy, Debug, PartialEq, Eq, Structural)]
pub struct PinWrite {
    pub duty: u32,
    pub generation: u64,
}

impl PinWrite {
    /// Whether this write drives the pin fully high (for on/off pins).
    pub fn is_high(&self) -> (r: bool)
        ensures
            r == (self.duty == DUTY_SCALE),
    {
        self.duty == DUTY_SCALE
    }

    /// The high time of one PWM period of `period_ns` nanoseconds at this
    /// duty, rounded down to the nanosecond.
    pub fn pulse_width_ns(&self, period_ns: u64) -> (r: u64)
        requires
            self.duty <= DUTY_SCALE,
        ensures
            r == period_ns * self.duty / (DUTY_SCALE as int),
    {
        proof {
            let (p, d, s) = (period_ns as int, self.duty as int, DUTY_SCALE as int);
            assert(p * d <= p * s) by (nonlinear_arith)
                requires
                    0 <= p,
                    0 <= d <= s,
            ;
            assert(p * s / s == p) by {
                vstd::arithmetic::div_mod::lemma_div_multiples_vanish(p, s);
            }
            vstd::arithmetic::div_mod::lemma_div_is_ordered(p * d, p * s, s);
            vstd::arithmetic::div_mod::lemma_div_pos_is_pos(p * d, s);
            assert(p * d < 0x1_0000_0000_0000_0000 * 0x1_0000_0000) by (nonlinear_arith)
                requires
                    0 <= p < 0x1_0000_0000_0000_0000,
                    0 <= d <= s,
                    s == 1_000_000,
            ;
        }
        ((period_ns as u128) * (self.duty as u128) / (DUTY_SCALE as u128)) as u64
    }
}

/// What a background playback does next.
#[derive(Clone, Copy, Debug, PartialEq, Eq, Structural)]
pub enum StepAction {
    /// Perform `write`, then sleep `hold_ms` milliseconds and ask again.
    Write { write: PinWrite, hold_ms: u64 },
    /// The playback is over: stop asking.
    Finished,
}

/// A playback as seen in contracts: the waveform, how often it is played
/// (`None`: until cancelled), the next step and the passes completed.
pub struct PlaybackView {
    pub steps: Seq<WaveformStep>,
    pub repeat: Option<u32>,
    pub index: nat,
    pub passes: nat,
}

impl PlaybackView {
    pub open spec fn wf(self) -> bool {
        &&& self.steps.len() > 0
        &&& self.index < self.steps.len()
        &&& forall|i: int| 0 <= i < self.steps.len() ==> #[trigger] self.steps[i].duty <= DUTY_SCALE
        &&& match self.repeat {
            Some(n) => n > 0 && self.passes <= n && (self.passes == n ==> self.index == 0),
            None => self.passes == 0,
        }
    }

    /// A bounded playback that has played all its passes.
    pub open spec fn finished(self) -> bool {
        match self.repeat {
            Some(n) => self.passes == n,
            None => false,
        }
    }

    /// The step to be written next.
    pub open spec fn current(self) -> WaveformStep {
        self.steps[self.index as int]
    }

    /// The playback after writing the current step.
    pub open spec fn advanced(self) -> PlaybackView {
        if self.index + 1 < self.steps.len() {
            PlaybackView { index: self.index + 1, ..self }
        } else {
            PlaybackView {
                index: 0,
                passes: if self.repeat is Some {
                    self.passes + 1
                } else {
                    self.passes
                },
                ..self
            }
        }
    }

    /// For a bounded playback, the number of steps still to be written.
    pub open spec fn remaining(self) -> int {
        match self.repeat {
            Some(n) => (n - self.passes) * self.steps.len() - self.index,
            None => 0,
        }
    }
}

/// A bounded playback counts down: it has finished exactly when no step
/// remains, and each step written brings it one step closer. A blink with
/// `repeat` of `Some(n)` thus ends by itself after `n` passes over its waveform.
pub proof fn lemma_bounded_playback_counts_down(p: PlaybackView)
    requires
        p.wf(),
        p.repeat is Some,
    ensures
        p.remaining() >= 0,
        p.finished() <==> p.remaining() == 0,
        !p.finished() ==> p.advanced().wf() && p.advanced().remaining() == p.remaining() - 1,
{
    let n = p.repeat->Some_0 as int;
    let len = p.steps.len() as int;
    let k = n - p.passes;
    assert(k * len >= 0) by (nonlinear_arith)
        requires
            k >= 0,
            len > 0,
    ;
    if p.finished() {
        assert(k * len == 0) by (nonlinear_arith)
            requires
                k == 0,
        ;
    } else {
        assert(k * len >= len) by (nonlinear_arith)
            requires
                k >= 1,
                len > 0,
        ;
        assert((k - 1) * len == k * len - len) by (nonlinear_arith);
    }
}

/// The playback after `k` steps have been written.
pub open spec fn advanced_by(p: PlaybackView, k: nat) -> PlaybackView
    decreases k,
{
    if k == 0 {
        p
    } else {
        advanced_by(p, (k - 1) as nat).advanced()
    }
}

/// A bounded playback ends on its own after exactly as many steps as remain:
/// after `k` of them it is finished if and only if `k` is all that remained.
/// A new blink of `n` passes over a waveform of `len` steps thus finishes
/// after its `n * len`-th write, with no `stop` needed.
pub proof fn lemma_bounded_playback_ends(p: PlaybackView, k: nat)
    requires
        p.wf(),
        p.repeat is Some,
        k <= p.remaining(),
    ensures
        advanced_by(p, k).wf(),
        advanced_by(p, k).repeat == p.repeat,
        advanced_by(p, k).remaining() == p.remaining() - k,
        advanced_by(p, k).finished() <==> k == p.remaining(),
    decreases k,
{
    if k > 0 {
        lemma_bounded_playback_ends(p, (k - 1) as nat);
        lemma_bounded_playback_counts_down(advanced_by(p, (k - 1) as nat));
    }
    lemma_bounded_playback_counts_down(advanced_by(p, k));
}

/// The state of a device as seen in contracts: its polarity, the logical
/// duty last written, the current playback generation, the playback if one
/// runs, and the generation of every write it has issued, in order.
pub struct OutputView {
    pub active_high: bool,
    pub value: nat,
    pub generation: nat,
    pub playback: Option<PlaybackView>,
    pub writes: Seq<nat>,
}

impl OutputView {
    pub open spec fn running(self) -> bool {
        self.playback is Some
    }

    /// The write that carries logical duty `duty` now.
    pub open spec fn write_of(self, duty: int) -> PinWrite {
        PinWrite { duty: physical_duty(self.active_high, duty) as u32, generation: self.generation as u64 }
    }

    /// The state after the foreground writes logical duty `duty`: any
    /// playback is cancelled first.
    pub open spec fn with_value(self, duty: nat) -> OutputView {
        OutputView { value: duty, playback: None, writes: self.writes.push(self.generation), ..self }
    }
}

/// Writing "off" twice in a row writes the same physical level both times and
/// leaves the value at zero after each: there is no flicker in between.
pub proof fn lemma_off_twice(v: OutputView)
    ensures
        v.with_value(0).value == 0,
        v.with_value(0).with_value(0).value == 0,
        v.with_value(0).write_of(0).duty == v.write_of(0).duty,
        !v.with_value(0).with_value(0).running(),
{
}

struct Playback {
    steps: Vec<WaveformStep>,
    repeat: Option<u32>,
    index: usize,
    passes: u32,
}

impl Playback {
    spec fn view(&self) -> PlaybackView {
        PlaybackView {
            steps: self.steps@,
            repeat: self.repeat,
            index: self.index as nat,
            passes: self.passes as nat,
        }
    }
}

/// A software PWM output with blink and pulse effects played in the background.
pub struct PWMOutputDevice {
    active_high: bool,
    value: u32,
    generation: u64,
    playback: Option<Playback>,
    writes: Ghost<Seq<nat>>,
}

/// A light emitting diode with variable brightness.
pub type PWMLED = PWMOutputDevice;

impl View for PWMOutputDevice {
    type V = OutputView;

    closed spec fn view(&self) -> OutputView {
        OutputView {
            active_high: self.active_high,
            value: self.value as nat,
            generation: self.generation as nat,
            playback: match self.playback {
                Some(p) => Some(p.view()),
                None => None,
            },
            writes: self.writes@,
        }
    }
}

impl PWMOutputDevice {
    pub closed spec fn wf(&self) -> bool {
        &&& self.value <= DUTY_SCALE
        &&& self.playback matches Some(p) ==> p.view().wf()
        &&& forall|i: int, j: int|
            0 <= i <= j < self.writes@.len() ==> self.writes@[i] <= self.writes@[j]
        &&& forall|i: int| 0 <= i < self.writes@.len() ==> self.writes@[i] <= self.generation
    }

    /// What a well-formed device guarantees: a value within range, a
    /// well-formed playback, and writes issued in non-decreasing generation
    /// order, none from a generation later than the current one. No write of a
    /// replaced playback can follow a write of its successor.
    pub proof fn lemma_writes_in_generation_order(&self)
        requires
            self.wf(),
        ensures
            self@.value <= DUTY_SCALE,
            self@.playback matches Some(p) ==> p.wf(),
            forall|i: int, j: int|
                0 <= i <= j < self@.writes.len() ==> self@.writes[i] <= self@.writes[j],
            forall|i: int| 0 <= i < self@.writes.len() ==> self@.writes[i] <= self@.generation,
    {
    }

    /// An idle, active-high device at duty zero.
    pub fn new() -> (r: PWMOutputDevice)
        ensures
            r.wf(),
            r@ == (OutputView {
                active_high: true,
                value: 0,
                generation: 0,
                playback: None,
                writes: Seq::empty(),
            }),
    {
        PWMOutputDevice { active_high: true, value: 0, generation: 0, playback: None, writes: Ghost(Seq::empty()) }
    }

    /// The logical duty cycle last written, by the caller or by the playback.
    pub fn value(&self) -> (r: u32)
        requires
            self.wf(),
        ensures
            r == self@.value,
            r <= DUTY_SCALE,
    {
        self.value
    }

    /// Whether the duty cycle is above zero.
    pub fn is_active(&self) -> (r: bool)
        ensures
            r == (self@.value > 0),
    {
        self.value > 0
    }

    /// Whether a background playback is running.
    pub fn is_running(&self) -> (r: bool)
        ensures
            r == self@.running(),
    {
        self.playback.is_some()
    }

    /// The generation of the latest playback.
    pub fn generation(&self) -> (r: u64)
        ensures
            r == self@.generation,
    {
        self.generation
    }

    /// Whether a high level (full duty) means active.
    pub fn active_high(&self) -> (r: bool)
        ensures
            r == self@.active_high,
    {
        self.active_high
    }

    /// Sets the polarity of every later write, by the caller or by a running
    /// playback; a waveform already playing keeps its shape.
    pub fn set_active_high(&mut self, value: bool)
        requires
            old(self).wf(),
        ensures
            final(self).wf(),
            final(self)@ == (OutputView { active_high: value, ..old(self)@ }),
    {
        self.active_high = value;
    }

    /// Cancels any playback and writes logical duty `duty`.
    pub(crate) fn write_value(&mut self, duty: u32) -> (r: PinWrite)
        requires
            old(self).wf(),
            duty <= DUTY_SCALE,
        ensures
            final(self).wf(),
            final(self)@ == old(self)@.with_value(duty as nat),
            r == old(self)@.write_of(duty as int),
    {
        self.playback = None;
        self.value = duty;
        self.writes = Ghost(self.writes@.push(self.generation as nat));
        PinWrite { duty: to_physical_duty(self.active_high, duty), generation: self.generation }
    }

    /// Cancels any playback and sets the duty cycle to `value` parts per
    /// million. A value outside `0..=DUTY_SCALE` is refused and changes nothing.
    pub fn set_value(&mut self, value: i64) -> (r: Result<PinWrite, RangeError>)
        requires
            old(self).wf(),
        ensures
            final(self).wf(),
            (0 <= value <= DUTY_SCALE) <==> r is Ok,
            r matches Err(e) ==> e == RangeError::OutOfRange && final(self)@ == old(self)@,
            r matches Ok(w) ==> final(self)@ == old(self)@.with_value(value as nat) && w
                == old(self)@.write_of(value as int),
    {
        if value < 0 || value > DUTY_SCALE as i64 {
            return Err(RangeError::OutOfRange);
        }
        Ok(self.write_value(value as u32))
    }

    /// Cancels any playback and turns the device fully on.
    pub fn on(&mut self) -> (r: PinWrite)
        requires
            old(self).wf(),
        ensures
            final(self).wf(),
            final(self)@ == old(self)@.with_value(DUTY_SCALE as nat),
            r == old(self)@.write_of(DUTY_SCALE as int),
    {
        self.write_value(DUTY_SCALE)
    }

    /// Cancels any playback and turns the device off.
    pub fn off(&mut self) -> (r: PinWrite)
        requires
            old(self).wf(),
        ensures
            final(self).wf(),
            final(self)@ == old(self)@.with_value(0),
            r == old(self)@.write_of(0),
    {
        self.write_value(0)
    }

    /// Turns the device off if it is on and on if it is off. While a playback
    /// runs this does nothing and returns `None`.
    pub fn toggle(&mut self) -> (r: Option<PinWrite>)
        requires
            old(self).wf(),
        ensures
            final(self).wf(),
            old(self)@.running() ==> r is None && final(self)@ == old(self)@,
            !old(self)@.running() && old(self)@.value > 0 ==> r == Some(old(self)@.write_of(0))
                && final(self)@ == old(self)@.with_value(0),
            !old(self)@.running() && old(self)@.value == 0 ==> r == Some(
                old(self)@.write_of(DUTY_SCALE as int),
            ) && final(self)@ == old(self)@.with_value(DUTY_SCALE as nat),
    {
        if self.playback.is_some() {
            None
        } else if self.value > 0 {
            Some(self.write_value(0))
        } else {
            Some(self.write_value(DUTY_SCALE))
        }
    }

    /// Cancels any playback without writing. Returns whether one was running.
    pub fn stop(&mut self) -> (r: bool)
        requires
            old(self).wf(),
        ensures
            final(self).wf(),
            r == old(self)@.running(),
            final(self)@ == (OutputView { playback: None, ..old(self)@ }),
    {
        let was_running = self.playback.is_some();
        self.playback = None;
        was_running
    }

    /// Replaces any playback by a new one of the blink described by the four
    /// times, played `repeat` times (`None`: until cancelled). Returns the new
    /// playback's generation, which the caller hands to `playback_step`. A
    /// repeat of zero, or four times of zero, is refused and changes nothing.
    pub fn blink(
        &mut self,
        on_ms: u64,
        off_ms: u64,
        fade_in_ms: u64,
        fade_out_ms: u64,
        repeat: Option<u32>,
    ) -> (r: Result<u64, RangeError>)
        requires
            old(self).wf(),
            old(self)@.generation < u64::MAX,
        ensures
            final(self).wf(),
            ({
                let spec = BlinkSpec { on_ms, off_ms, fade_in_ms, fade_out_ms };
                &&& repeat == Some(0u32) ==> r == Err::<u64, RangeError>(RangeError::ZeroRepeat)
                &&& repeat != Some(0u32) && spec.is_empty() ==> r == Err::<u64, RangeError>(
                    RangeError::EmptyWaveform,
                )
                &&& r is Err ==> final(self)@ == old(self)@
                &&& r is Ok <==> repeat != Some(0u32) && !spec.is_empty()
                &&& r is Ok ==> r == Ok::<u64, RangeError>((old(self)@.generation + 1) as u64)
                    && final(self)@ == (OutputView {
                    generation: old(self)@.generation + 1,
                    playback: Some(
                        PlaybackView {
                            steps: waveform_of(spec, SAMPLE_RATE as nat),
                            repeat,
                            index: 0,
                            passes: 0,
                        },
                    ),
                    ..old(self)@
                })
            }),
    {
        if repeat == Some(0u32) {
            return Err(RangeError::ZeroRepeat);
        }
        let spec = BlinkSpec { on_ms, off_ms, fade_in_ms, fade_out_ms };
        let steps = match generate(spec, SAMPLE_RATE) {
            Ok(steps) => steps,
            Err(e) => {
                return Err(e);
            },
        };
        proof {
            lemma_waveform_in_range(spec, SAMPLE_RATE as nat);
        }
        self.generation = self.generation + 1;
        self.playback = Some(Playback { steps, repeat, index: 0, passes: 0 });
        Ok(self.generation)
    }

    /// A blink that only fades: in over `fade_in_ms`, out over `fade_out_ms`.
    pub fn pulse(&mut self, fade_in_ms: u64, fade_out_ms: u64, repeat: Option<u32>) -> (r: Result<
        u64,
        RangeError,
    >)
        requires
            old(self).wf(),
            old(self)@.generation < u64::MAX,
        ensures
            final(self).wf(),
            ({
                let spec = BlinkSpec { on_ms: 0, off_ms: 0, fade_in_ms, fade_out_ms };
                &&& repeat == Some(0u32) ==> r == Err::<u64, RangeError>(RangeError::ZeroRepeat)
                &&& repeat != Some(0u32) && spec.is_empty() ==> r == Err::<u64, RangeError>(
                    RangeError::EmptyWaveform,
                )
                &&& r is Err ==> final(self)@ == old(self)@
                &&& r is Ok <==> repeat != Some(0u32) && !spec.is_empty()
                &&& r is Ok ==> r == Ok::<u64, RangeError>((old(self)@.generation + 1) as u64)
                    && final(self)@ == (OutputView {
                    generation: old(self)@.generation + 1,
                    playback: Some(
                        PlaybackView {
                            steps: waveform_of(spec, SAMPLE_RATE as nat),
                            repeat,
                            index: 0,
                            passes: 0,
                        },
                    ),
                    ..old(self)@
                })
            }),
    {
        self.blink(0, 0, fade_in_ms, fade_out_ms, repeat)
    }

    /// Whether there is a playback to wait for; `Ok` carries its generation.
    pub fn wait(&self) -> (r: Result<u64, NotRunningError>)
        ensures
            r is Ok <==> self@.running(),
            r matches Ok(g) ==> g == self@.generation,
    {
        if self.playback.is_some() {
            Ok(self.generation)
        } else {
            Err(NotRunningError)
        }
    }

    /// The next step of the playback of generation `generation`. A playback
    /// that was cancelled or replaced, or that has played all its passes, is
    /// told `Finished` and writes nothing; a finished one leaves the device idle.
    /// Otherwise the current step is written and the playback moves on.
    pub fn playback_step(&mut self, generation: u64) -> (r: StepAction)
        requires
            old(self).wf(),
        ensures
            final(self).wf(),
            generation != old(self)@.generation || !old(self)@.running() ==> r
                == StepAction::Finished && final(self)@ == old(self)@,
            generation == old(self)@.generation ==> match old(self)@.playback {
                None => true,
                Some(p) => if p.finished() {
                    r == StepAction::Finished && final(self)@ == (OutputView {
                        playback: None,
                        ..old(self)@
                    })
                } else {
                    &&& r == (StepAction::Write {
                        write: old(self)@.write_of(p.current().duty as int),
                        hold_ms: p.current().hold_ms,
                    })
                    &&& final(self)@ == (OutputView {
                        value: p.current().duty as nat,
                        playback: Some(p.advanced()),
                        writes: old(self)@.writes.push(old(self)@.generation),
                        ..old(self)@
                    })
                },
            },
    {
        if generation != self.generation {
            return StepAction::Finished;
        }
        let p = self.playback.take();
        match p {
            None => StepAction::Finished,
            Some(mut p) => {
                let finished = match p.repeat {
                    Some(n) => p.passes == n,
                    None => false,
                };
                if finished {
                    return StepAction::Finished;
                }
                let step = p.steps[p.index];
                let len = p.steps.len();
                p.index = p.index + 1;
                if p.index == len {
                    p.index = 0;
                    if p.repeat.is_some() {
                        p.passes = p.passes + 1;
                    }
                }
                self.playback = Some(p);
                self.value = step.duty;
                self.writes = Ghost(self.writes@.push(self.generation as nat));
                let write = PinWrite { duty: to_physical_duty(self.active_high, step.duty), generation };
                StepAction::Write { write, hold_ms: step.hold_ms }
            },
        }
    }
}

} // verus!
