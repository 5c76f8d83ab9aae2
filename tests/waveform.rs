use rust_gpiozero::waveform::generate;
use rust_gpiozero::{BlinkSpec, RangeError, WaveformStep, DUTY_SCALE, SAMPLE_RATE};

fn spec(on_ms: u64, off_ms: u64, fade_in_ms: u64, fade_out_ms: u64) -> BlinkSpec {
    BlinkSpec { on_ms, off_ms, fade_in_ms, fade_out_ms }
}

#[test]
fn one_second_fades_give_fifty_two_steps() {
    let w = generate(spec(700, 300, 1000, 1000), SAMPLE_RATE).unwrap();
    assert_eq!(w.len(), 52);
    for i in 0..25 {
        assert!(w[i].duty > 0 && w[i].duty < DUTY_SCALE);
        assert_eq!(w[i].hold_ms, 40);
    }
    for i in 0..24 {
        assert!(w[i].duty < w[i + 1].duty);
    }
    assert_eq!(w[25], WaveformStep { duty: DUTY_SCALE, hold_ms: 700 });
    for i in 26..51 {
        assert!(w[i].duty > 0 && w[i].duty < DUTY_SCALE);
        assert_eq!(w[i].hold_ms, 40);
    }
    for i in 26..50 {
        assert!(w[i].duty > w[i + 1].duty);
    }
    assert_eq!(w[51], WaveformStep { duty: 0, hold_ms: 300 });
}

#[test]
fn ramp_duties_are_slice_midpoints() {
    let w = generate(spec(0, 0, 1000, 1000), SAMPLE_RATE).unwrap();
    // step i of 25 rises to (2i + 1) / 50 of the range
    assert_eq!(w[0].duty, 20_000);
    assert_eq!(w[1].duty, 60_000);
    assert_eq!(w[24].duty, 980_000);
    assert_eq!(w[26].duty, 980_000);
    assert_eq!(w[50].duty, 20_000);
}

#[test]
fn no_fades_give_two_steps() {
    let w = generate(spec(2000, 3000, 0, 0), SAMPLE_RATE).unwrap();
    assert_eq!(
        w,
        vec![WaveformStep { duty: DUTY_SCALE, hold_ms: 2000 }, WaveformStep { duty: 0, hold_ms: 3000 }]
    );
}

#[test]
fn zero_on_time_still_marks_full_on() {
    let w = generate(spec(0, 500, 0, 0), SAMPLE_RATE).unwrap();
    assert_eq!(w[0], WaveformStep { duty: DUTY_SCALE, hold_ms: 0 });
    assert_eq!(w.len(), 2);
}

#[test]
fn all_zero_times_are_refused() {
    assert_eq!(generate(spec(0, 0, 0, 0), SAMPLE_RATE), Err(RangeError::EmptyWaveform));
}

#[test]
fn short_fade_has_floor_of_steps() {
    // 25 steps per second over 130 ms: floor(3.25) = 3 steps
    let w = generate(spec(0, 0, 130, 0), SAMPLE_RATE).unwrap();
    assert_eq!(w.len(), 3 + 2);
    assert_eq!(w[0].duty, 166_666);
    assert_eq!(w[2].duty, 833_333);
    // under one step's worth of fade gives no ramp at all
    let w = generate(spec(0, 0, 39, 0), SAMPLE_RATE).unwrap();
    assert_eq!(w.len(), 2);
}

#[test]
fn other_sample_rate() {
    let w = generate(spec(10, 10, 500, 0), 100).unwrap();
    assert_eq!(w.len(), 50 + 2);
    assert_eq!(w[0], WaveformStep { duty: 10_000, hold_ms: 10 });
}
