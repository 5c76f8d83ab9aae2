//! Turning a blink or pulse description into a finite sequence of
//! (duty cycle, hold time) steps.
use vstd::prelude::*;
use vstd::arithmetic::div_mod::{
    lemma_div_is_ordered, lemma_div_multiples_vanish_fancy, lemma_div_plus_one, lemma_div_pos_is_pos, lemma_fundamental_div_mod, lemma_mod_bound,
    lemma_multiply_divide_le, lemma_multiply_divide_lt,
};

use crate::error::RangeError;

verus! {

/// A duty cycle of `DUTY_SCALE` is fully active, `0` fully inactive.
pub const DUTY_SCALE: u32 = 1_000_000;

/// Steps per second of a fade. A tunable constant: it sets how smooth a fade is.
pub const SAMPLE_RATE: u64 = 25;

/// One step of a waveform: write `duty`, then hold it for `hold_ms` milliseconds.
#[derive(Clone, Copy, Debug, PartialEq, Eq, Structural)]
pub struct WaveformStep {
    pub duty: u32,
    pub hold_ms: u64,
}

/// The four times of a blink, in milliseconds.
#[derive(Clone, Copy, Debug, PartialEq, Eq, Structural)]
pub struct BlinkSpec {
    pub on_ms: u64,
    pub off_ms: u64,
    pub fade_in_ms: u64,
    pub fade_out_ms: u64,
}

impl BlinkSpec {
    /// All four times are zero: such a waveform would be meaningless.
    pub open spec fn is_empty(self) -> bool {
        self.on_ms == 0 && self.off_ms == 0 && self.fade_in_ms == 0 && self.fade_out_ms == 0
    }
}

/// Number of steps of a fade lasting `fade_ms` at `sample_rate` steps per second.
pub open spec fn fade_step_count(sample_rate: nat, fade_ms: nat) -> nat {
    (sample_rate * fade_ms / 1000nat) as nat
}

/// How long each fade step is held.
pub open spec fn sample_hold_ms(sample_rate: nat) -> nat {
    (1000int / sample_rate as int) as nat
}

/// Duty of step `i` of a rising ramp of `n` steps: the midpoint of the `i`-th of
/// `n` equal slices of the range, so that the ramp stays strictly between
/// inactive and active and rises by `DUTY_SCALE / n` per step.
pub open spec fn rising_duty(i: int, n: int) -> int {
    (2 * i + 1) * (DUTY_SCALE as int) / (2 * n)
}

/// Duty of step `i` of a falling ramp of `n` steps: the rising ramp mirrored.
pub open spec fn falling_duty(i: int, n: int) -> int {
    DUTY_SCALE as int - rising_duty(i, n)
}

pub open spec fn ramp_duty(i: int, n: int, rising: bool) -> int {
    if rising {
        rising_duty(i, n)
    } else {
        falling_duty(i, n)
    }
}

/// Step `i` of a ramp of `n` steps, each held `hold` milliseconds.
pub open spec fn ramp_step(i: int, n: int, hold: nat, rising: bool) -> WaveformStep {
    WaveformStep { duty: ramp_duty(i, n, rising) as u32, hold_ms: hold as u64 }
}

/// A ramp of `n` steps, each held `hold` milliseconds.
pub open spec fn ramp(n: nat, hold: nat, rising: bool) -> Seq<WaveformStep> {
    Seq::new(n, |i: int| ramp_step(i, n as int, hold, rising))
}

/// The waveform of a blink: fade in, hold fully on, fade out, hold fully off.
pub open spec fn waveform_of(spec: BlinkSpec, sample_rate: nat) -> Seq<WaveformStep> {
    let hold = sample_hold_ms(sample_rate);
    ramp(fade_step_count(sample_rate, spec.fade_in_ms as nat), hold, true)
        + seq![WaveformStep { duty: DUTY_SCALE, hold_ms: spec.on_ms }]
        + ramp(fade_step_count(sample_rate, spec.fade_out_ms as nat), hold, false)
        + seq![WaveformStep { duty: 0, hold_ms: spec.off_ms }]
}

/// Every step of a ramp lies within the duty range; with at most
/// `DUTY_SCALE / 2` steps it lies strictly inside it.
pub proof fn lemma_ramp_duty_bounds(i: int, n: int)
    requires
        0 <= i < n,
    ensures
        0 <= rising_duty(i, n) < DUTY_SCALE,
        n <= DUTY_SCALE / 2 ==> 0 < rising_duty(i, n),
{
    let s = DUTY_SCALE as int;
    assert((2 * i + 1) * s < (2 * n) * s) by (nonlinear_arith)
        requires
            0 <= i < n,
            s > 0,
    ;
    lemma_multiply_divide_lt((2 * i + 1) * s, 2 * n, s);
    lemma_div_pos_is_pos((2 * i + 1) * s, 2 * n);
    if n <= s / 2 {
        assert((2 * i + 1) * s >= 2 * n) by (nonlinear_arith)
            requires
                0 <= i,
                2 * n <= s,
                s > 0,
        ;
        vstd::arithmetic::div_mod::lemma_div_non_zero((2 * i + 1) * s, 2 * n);
    }
}

/// Every step of a waveform has a duty within range, and a waveform is never empty.
pub proof fn lemma_waveform_in_range(spec: BlinkSpec, sample_rate: nat)
    ensures
        waveform_of(spec, sample_rate).len() >= 2,
        forall|i: int|
            0 <= i < waveform_of(spec, sample_rate).len() ==> #[trigger] waveform_of(
                spec,
                sample_rate,
            )[i].duty <= DUTY_SCALE,
{
    let w = waveform_of(spec, sample_rate);
    let hold = sample_hold_ms(sample_rate);
    let n_in = fade_step_count(sample_rate, spec.fade_in_ms as nat);
    let n_out = fade_step_count(sample_rate, spec.fade_out_ms as nat);
    let up = ramp(n_in, hold, true);
    let down = ramp(n_out, hold, false);
    assert forall|i: int| 0 <= i < w.len() implies #[trigger] w[i].duty <= DUTY_SCALE by {
        if i < n_in {
            assert(w[i] == up[i]);
            lemma_ramp_duty_bounds(i, n_in as int);
        } else if n_in < i < n_in + 1 + n_out {
            assert(w[i] == down[i - n_in - 1]);
            lemma_ramp_duty_bounds(i - n_in - 1, n_out as int);
        }
    }
}

/// A rising ramp of at most `DUTY_SCALE` steps rises strictly from step to step.
pub proof fn lemma_rising_duty_strictly_increasing(i: int, j: int, n: int)
    requires
        0 <= i < j < n,
        n <= DUTY_SCALE,
    ensures
        rising_duty(i, n) < rising_duty(j, n),
{
    let s = DUTY_SCALE as int;
    let (x, y, d) = ((2 * i + 1) * s, (2 * j + 1) * s, 2 * n);
    assert(y - x == 2 * ((j - i) * s)) by (nonlinear_arith)
        requires
            x == (2 * i + 1) * s,
            y == (2 * j + 1) * s,
    ;
    assert((j - i) * s >= s) by (nonlinear_arith)
        requires
            i < j,
            s > 0,
    ;
    lemma_div_plus_one(x, d);
    lemma_div_is_ordered(x + d, y, d);
}

/// A blink with one-second fades at 25 steps per second has 52 steps: 25
/// strictly rising duties strictly between inactive and active, the fully-on
/// step held `on_ms`, 25 strictly falling duties strictly between inactive and
/// active, and the fully-off step held `off_ms`.
pub proof fn lemma_one_second_fades(on_ms: u64, off_ms: u64)
    ensures
        ({
            let w = waveform_of(BlinkSpec { on_ms, off_ms, fade_in_ms: 1000, fade_out_ms: 1000 }, 25);
            &&& w.len() == 52
            &&& forall|i: int| 0 <= i < 25 ==> 0 < #[trigger] w[i].duty < DUTY_SCALE
            &&& forall|i: int, j: int| 0 <= i < j < 25 ==> w[i].duty < w[j].duty
            &&& w[25] == WaveformStep { duty: DUTY_SCALE, hold_ms: on_ms }
            &&& forall|i: int| 26 <= i < 51 ==> 0 < #[trigger] w[i].duty < DUTY_SCALE
            &&& forall|i: int, j: int| 26 <= i < j < 51 ==> w[i].duty > w[j].duty
            &&& w[51] == WaveformStep { duty: 0, hold_ms: off_ms }
        }),
{
    let spec = BlinkSpec { on_ms, off_ms, fade_in_ms: 1000, fade_out_ms: 1000 };
    let w = waveform_of(spec, 25);
    assert(fade_step_count(25, 1000) == 25);
    assert(sample_hold_ms(25) == 40);
    let up = ramp(25, 40, true);
    let down = ramp(25, 40, false);
    assert(w =~= up + seq![WaveformStep { duty: DUTY_SCALE, hold_ms: on_ms }] + down + seq![
        WaveformStep { duty: 0, hold_ms: off_ms },
    ]);
    assert forall|i: int| 0 <= i < 25 implies 0 < #[trigger] w[i].duty < DUTY_SCALE by {
        lemma_ramp_duty_bounds(i, 25);
    }
    assert forall|i: int, j: int| 0 <= i < j < 25 implies w[i].duty < w[j].duty by {
        lemma_ramp_duty_bounds(i, 25);
        lemma_ramp_duty_bounds(j, 25);
        lemma_rising_duty_strictly_increasing(i, j, 25);
    }
    assert forall|i: int| 26 <= i < 51 implies 0 < #[trigger] w[i].duty < DUTY_SCALE by {
        assert(w[i] == down[i - 26]);
        lemma_ramp_duty_bounds(i - 26, 25);
    }
    assert forall|i: int, j: int| 26 <= i < j < 51 implies w[i].duty > w[j].duty by {
        assert(w[i] == down[i - 26]);
        assert(w[j] == down[j - 26]);
        lemma_ramp_duty_bounds(i - 26, 25);
        lemma_ramp_duty_bounds(j - 26, 25);
        lemma_rising_duty_strictly_increasing(i - 26, j - 26, 25);
    }
}

/// Without fades a blink is exactly two steps: fully on for `on_ms`, then
/// fully off for `off_ms`.
pub proof fn lemma_plain_blink(on_ms: u64, off_ms: u64, sample_rate: nat)
    requires
        1 <= sample_rate <= 1000,
    ensures
        waveform_of(BlinkSpec { on_ms, off_ms, fade_in_ms: 0, fade_out_ms: 0 }, sample_rate)
            == seq![
            WaveformStep { duty: DUTY_SCALE, hold_ms: on_ms },
            WaveformStep { duty: 0, hold_ms: off_ms },
        ],
{
    assert(fade_step_count(sample_rate, 0) == 0);
    assert(waveform_of(BlinkSpec { on_ms, off_ms, fade_in_ms: 0, fade_out_ms: 0 }, sample_rate)
        =~= seq![
        WaveformStep { duty: DUTY_SCALE, hold_ms: on_ms },
        WaveformStep { duty: 0, hold_ms: off_ms },
    ]);
}

/// Appends a ramp of `n` steps to `steps`.
fn push_ramp(steps: &mut Vec<WaveformStep>, n: u64, hold: u64, rising: bool)
    ensures
        final(steps)@ == old(steps)@ + ramp(n as nat, hold as nat, rising),
{
    let ghost start = steps@;
    let mut i: u64 = 0;
    while i < n
        invariant
            i <= n,
            steps@ == start + Seq::new(i as nat, |k: int| ramp_step(k, n as int, hold as nat, rising)),
        decreases n - i,
    {
        proof {
            lemma_ramp_duty_bounds(i as int, n as int);
        }
        let num: u128 = (2 * (i as u128) + 1) * (DUTY_SCALE as u128);
        let up: u64 = (num / (2 * (n as u128))) as u64;
        let duty: u32 = if rising { up as u32 } else { DUTY_SCALE - up as u32 };
        steps.push(WaveformStep { duty, hold_ms: hold });
        i = i + 1;
        assert(steps@ =~= start + Seq::new(i as nat, |k: int| ramp_step(k, n as int, hold as nat, rising)));
    }
    assert(steps@ =~= start + ramp(n as nat, hold as nat, rising));
}

/// Number of steps of a fade of `fade_ms` milliseconds, computed without overflow.
fn fade_steps(sample_rate: u64, fade_ms: u64) -> (r: u64)
    requires
        1 <= sample_rate <= 1000,
    ensures
        r == fade_step_count(sample_rate as nat, fade_ms as nat),
{
    let whole = fade_ms / 1000;
    let part = fade_ms % 1000;
    proof {
        let (q, p, k) = (whole as int, part as int, sample_rate as int);
        let pk = p * k;
        assert(k * (fade_ms as int) == 1000 * (q * k) + pk) by (nonlinear_arith)
            requires
                fade_ms as int == 1000 * q + p,
                pk == p * k,
        ;
        assert(q * k <= 1000 * q && 0 <= pk <= 1000 * p) by (nonlinear_arith)
            requires
                0 <= p,
                0 <= q,
                1 <= k <= 1000,
                pk == p * k,
        ;
        lemma_fundamental_div_mod(pk, 1000);
        lemma_mod_bound(pk, 1000);
        lemma_div_multiples_vanish_fancy(q * k + pk / 1000, pk % 1000, 1000);
        assert(1000 * (q * k) + pk == 1000 * (q * k + pk / 1000) + pk % 1000);
        lemma_multiply_divide_le(pk, 1000, p);
    }
    whole * sample_rate + part * sample_rate / 1000
}

/// Computes the waveform of a blink at `sample_rate` fade steps per second:
/// a rising ramp lasting `fade_in_ms`, one fully-on step held `on_ms`, a
/// falling ramp lasting `fade_out_ms` and one fully-off step held `off_ms`.
/// A blink whose four times are all zero is refused.
pub fn generate(spec: BlinkSpec, sample_rate: u64) -> (r: Result<Vec<WaveformStep>, RangeError>)
    requires
        1 <= sample_rate <= 1000,
    ensures
        spec.is_empty() <==> r is Err,
        r matches Err(e) ==> e == RangeError::EmptyWaveform,
        r matches Ok(w) ==> w@ == waveform_of(spec, sample_rate as nat),
{
    if spec.on_ms == 0 && spec.off_ms == 0 && spec.fade_in_ms == 0 && spec.fade_out_ms == 0 {
        return Err(RangeError::EmptyWaveform);
    }
    let hold = 1000 / sample_rate;
    let mut steps: Vec<WaveformStep> = Vec::new();
    let n_in = fade_steps(sample_rate, spec.fade_in_ms);
    push_ramp(&mut steps, n_in, hold, true);
    steps.push(WaveformStep { duty: DUTY_SCALE, hold_ms: spec.on_ms });
    let n_out = fade_steps(sample_rate, spec.fade_out_ms);
    push_ramp(&mut steps, n_out, hold, false);
    steps.push(WaveformStep { duty: 0, hold_ms: spec.off_ms });
    assert(steps@ =~= waveform_of(spec, sample_rate as nat));
    Ok(steps)
}

} // verus!
