use rust_gpiozero::{
    DigitalOutputDevice, Motor, NotRunningError, PWMOutputDevice, PinWrite, RangeError, StepAction,
    DUTY_SCALE, LED,
};

/// Runs a playback to its end, returning every write with its hold.
fn run(dev: &mut PWMOutputDevice, gen: u64, limit: usize) -> Vec<(PinWrite, u64)> {
    let mut out = Vec::new();
    for _ in 0..limit {
        match dev.playback_step(gen) {
            StepAction::Write { write, hold_ms } => out.push((write, hold_ms)),
            StepAction::Finished => return out,
        }
    }
    out
}

#[test]
fn off_twice_writes_the_same_level() {
    let mut dev = PWMOutputDevice::new();
    dev.on();
    let a = dev.off();
    assert_eq!(dev.value(), 0);
    let b = dev.off();
    assert_eq!(dev.value(), 0);
    assert_eq!(a.duty, b.duty);
    assert_eq!(a.duty, 0);
}

#[test]
fn out_of_range_values_are_refused() {
    let mut dev = PWMOutputDevice::new();
    dev.set_value(200_000).unwrap();
    assert_eq!(dev.set_value(1_500_000), Err(RangeError::OutOfRange));
    assert_eq!(dev.value(), 200_000);
    assert_eq!(dev.set_value(-100_000), Err(RangeError::OutOfRange));
    assert_eq!(dev.value(), 200_000);
}

#[test]
fn set_value_bounds_are_accepted() {
    let mut dev = PWMOutputDevice::new();
    assert_eq!(dev.set_value(0).unwrap().duty, 0);
    assert_eq!(dev.set_value(1_000_000).unwrap().duty, DUTY_SCALE);
    assert_eq!(dev.value(), DUTY_SCALE);
}

#[test]
fn active_low_inverts_writes() {
    let mut dev = PWMOutputDevice::new();
    dev.set_active_high(false);
    assert_eq!(dev.set_value(200_000).unwrap().duty, 800_000);
    assert_eq!(dev.value(), 200_000);
    assert_eq!(dev.on().duty, 0);
    assert_eq!(dev.off().duty, DUTY_SCALE);
}

#[test]
fn polarity_change_applies_to_running_playback() {
    let mut dev = PWMOutputDevice::new();
    let gen = dev.blink(100, 100, 0, 0, None).unwrap();
    dev.set_active_high(false);
    match dev.playback_step(gen) {
        StepAction::Write { write, hold_ms } => {
            assert_eq!(write.duty, 0);
            assert_eq!(hold_ms, 100);
        }
        StepAction::Finished => panic!("playback ended early"),
    }
    assert_eq!(dev.value(), DUTY_SCALE);
}

#[test]
fn bounded_blink_ends_by_itself() {
    let mut dev = PWMOutputDevice::new();
    let gen = dev.blink(100, 200, 0, 0, Some(3)).unwrap();
    assert!(dev.is_running());
    let writes = run(&mut dev, gen, 100);
    assert_eq!(writes.len(), 6);
    for (i, (w, hold)) in writes.iter().enumerate() {
        if i % 2 == 0 {
            assert_eq!((w.duty, *hold), (DUTY_SCALE, 100));
        } else {
            assert_eq!((w.duty, *hold), (0, 200));
        }
    }
    assert!(!dev.is_running());
    assert_eq!(dev.value(), 0);
    assert_eq!(dev.wait(), Err(NotRunningError));
}

#[test]
fn bounded_pulse_counts_all_passes() {
    let mut dev = PWMOutputDevice::new();
    let gen = dev.pulse(1000, 1000, Some(2)).unwrap();
    let writes = run(&mut dev, gen, 1000);
    assert_eq!(writes.len(), 2 * 52);
    assert!(!dev.is_running());
}

#[test]
fn unbounded_blink_keeps_going() {
    let mut dev = PWMOutputDevice::new();
    let gen = dev.blink(10, 10, 0, 0, None).unwrap();
    let writes = run(&mut dev, gen, 50);
    assert_eq!(writes.len(), 50);
    assert!(dev.is_running());
    assert_eq!(dev.wait(), Ok(gen));
}

#[test]
fn new_blink_silences_the_old_generation() {
    let mut dev = PWMOutputDevice::new();
    let first = dev.blink(100, 100, 0, 0, None).unwrap();
    let mut tags = Vec::new();
    for _ in 0..3 {
        if let StepAction::Write { write, .. } = dev.playback_step(first) {
            tags.push(write.generation);
        }
    }
    let second = dev.blink(50, 50, 500, 500, None).unwrap();
    assert!(second > first);
    // interleave calls from both generations: only the new one writes
    for _ in 0..10 {
        assert_eq!(dev.playback_step(first), StepAction::Finished);
        if let StepAction::Write { write, .. } = dev.playback_step(second) {
            tags.push(write.generation);
        }
    }
    tags.push(dev.off().generation);
    assert_eq!(tags.len(), 14);
    for pair in tags.windows(2) {
        assert!(pair[0] <= pair[1]);
    }
    assert_eq!(dev.playback_step(second), StepAction::Finished);
}

#[test]
fn stop_cancels_without_writing() {
    let mut dev = PWMOutputDevice::new();
    let gen = dev.blink(100, 100, 0, 0, None).unwrap();
    dev.playback_step(gen);
    assert!(dev.stop());
    assert!(!dev.is_running());
    assert_eq!(dev.value(), DUTY_SCALE);
    assert_eq!(dev.playback_step(gen), StepAction::Finished);
    assert!(!dev.stop());
}

#[test]
fn toggle_while_running_is_a_no_op() {
    let mut dev = PWMOutputDevice::new();
    let gen = dev.blink(100, 100, 0, 0, None).unwrap();
    dev.playback_step(gen);
    let before = dev.value();
    assert!(dev.is_running());
    assert_eq!(dev.toggle(), None);
    assert_eq!(dev.value(), before);
    assert!(dev.is_running());
}

#[test]
fn toggle_when_idle_flips() {
    let mut dev = PWMOutputDevice::new();
    assert_eq!(dev.toggle().unwrap().duty, DUTY_SCALE);
    assert_eq!(dev.value(), DUTY_SCALE);
    dev.set_value(300_000).unwrap();
    assert_eq!(dev.toggle().unwrap().duty, 0);
    assert_eq!(dev.value(), 0);
}

#[test]
fn blink_errors() {
    let mut dev = PWMOutputDevice::new();
    assert_eq!(dev.blink(0, 0, 0, 0, None), Err(RangeError::EmptyWaveform));
    assert_eq!(dev.blink(100, 100, 0, 0, Some(0)), Err(RangeError::ZeroRepeat));
    assert_eq!(dev.pulse(0, 0, Some(2)), Err(RangeError::EmptyWaveform));
    assert!(!dev.is_running());
    assert_eq!(dev.generation(), 0);
}

#[test]
fn wait_with_nothing_running() {
    let dev = PWMOutputDevice::new();
    assert_eq!(dev.wait(), Err(NotRunningError));
}

#[test]
fn on_cancels_a_running_blink() {
    let mut dev = PWMOutputDevice::new();
    let gen = dev.blink(100, 100, 0, 0, None).unwrap();
    dev.playback_step(gen);
    dev.playback_step(gen);
    assert_eq!(dev.value(), 0);
    let w = dev.on();
    assert_eq!(w.duty, DUTY_SCALE);
    assert!(!dev.is_running());
    assert_eq!(dev.playback_step(gen), StepAction::Finished);
}

#[test]
fn led_blinks_on_and_off() {
    let mut led: LED = DigitalOutputDevice::new();
    assert!(!led.is_lit());
    let gen = led.blink(2000, 3000, Some(1)).unwrap();
    match led.playback_step(gen) {
        StepAction::Write { write, hold_ms } => {
            assert!(write.is_high());
            assert_eq!(hold_ms, 2000);
        }
        StepAction::Finished => panic!("blink ended early"),
    }
    assert!(led.is_lit());
    match led.playback_step(gen) {
        StepAction::Write { write, hold_ms } => {
            assert!(!write.is_high());
            assert_eq!(hold_ms, 3000);
        }
        StepAction::Finished => panic!("blink ended early"),
    }
    assert_eq!(led.playback_step(gen), StepAction::Finished);
    assert!(!led.is_running());
}

#[test]
fn digital_toggle_and_polarity() {
    let mut dev = DigitalOutputDevice::new();
    assert!(dev.toggle().unwrap().is_high());
    assert!(dev.value());
    dev.set_active_high(false);
    assert!(dev.on().duty == 0);
    assert!(dev.off().is_high());
    assert!(!dev.is_active());
}

#[test]
fn buzzer_beep_refuses_zero_repeat() {
    let mut b = DigitalOutputDevice::new();
    assert_eq!(b.beep(100, 100, Some(0)), Err(RangeError::ZeroRepeat));
    assert!(b.beep(100, 100, Some(2)).is_ok());
    assert!(b.is_running());
}

#[test]
fn motor_directions() {
    let mut m = Motor::new();
    assert_eq!(m.speed(), DUTY_SCALE);
    let (off, on) = m.forward();
    assert_eq!((off.duty, on.duty), (0, DUTY_SCALE));
    m.set_speed(250_000).unwrap();
    let (off, on) = m.backward();
    assert_eq!((off.duty, on.duty), (0, 250_000));
    let (a, b) = m.stop();
    assert_eq!((a.duty, b.duty), (0, 0));
}

#[test]
fn motor_speed_out_of_range() {
    let mut m = Motor::new();
    m.set_speed(400_000).unwrap();
    assert_eq!(m.set_speed(1_000_001), Err(RangeError::OutOfRange));
    assert_eq!(m.set_speed(-1), Err(RangeError::OutOfRange));
    assert_eq!(m.speed(), 400_000);
}

#[test]
fn pulse_width_follows_duty() {
    let mut dev = PWMOutputDevice::new();
    assert_eq!(dev.set_value(200_000).unwrap().pulse_width_ns(10_000_000), 2_000_000);
    assert_eq!(dev.on().pulse_width_ns(10_000_000), 10_000_000);
    assert_eq!(dev.off().pulse_width_ns(10_000_000), 0);
    assert_eq!(dev.set_value(1).unwrap().pulse_width_ns(999_999), 0);
    assert_eq!(dev.set_value(333_333).unwrap().pulse_width_ns(3), 0);
    assert_eq!(dev.set_value(333_334).unwrap().pulse_width_ns(3), 1);
}
