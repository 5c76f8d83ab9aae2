use rust_gpiozero::polarity::{state_to_value, to_physical_duty, value_to_state};
use rust_gpiozero::{Button, InputDevice, OutputDevice, RangeError, Servo, ServoPulse};

#[test]
fn polarity_translation() {
    assert_eq!(to_physical_duty(true, 300_000), 300_000);
    assert_eq!(to_physical_duty(false, 300_000), 700_000);
    assert!(value_to_state(true, true));
    assert!(!value_to_state(false, true));
    assert!(state_to_value(false, false));
    assert!(!state_to_value(true, false));
}

#[test]
fn output_device_levels() {
    let mut d = OutputDevice::new();
    assert!(d.on());
    assert!(!d.off());
    assert!(d.value(true));
    assert!(!d.toggle(true));
    d.set_active_high(false);
    assert!(!d.active_high());
    assert!(!d.on());
    assert!(d.off());
    assert!(d.value(false));
    assert!(d.toggle(true) == false);
}

#[test]
fn inputs_follow_their_pull() {
    let down = InputDevice::new();
    assert!(down.value(true));
    let up = InputDevice::new_with_pullup();
    assert!(up.value(false));
    assert!(!up.value(true));
    let b = Button::new();
    assert!(b.pull_up());
    assert!(b.is_pressed(false));
    let b = Button::new_with_pulldown();
    assert!(b.is_pressed(true));
}

#[test]
fn debounce_ignores_close_triggers() {
    let mut d = Button::new().debounce(100);
    assert_eq!(d.period_ms(), 100);
    assert!(d.accept(1000));
    assert!(!d.accept(1050));
    assert!(!d.accept(1099));
    assert!(d.accept(1100));
    assert!(!d.accept(1150));
    assert!(d.accept(5000));
    assert!(!d.accept(10));
}

#[test]
fn servo_positions() {
    let s = Servo::new();
    assert_eq!(s.min(), ServoPulse { period_ms: 20, pulse_us: 1000 });
    assert_eq!(s.max(), ServoPulse { period_ms: 20, pulse_us: 2000 });
    assert_eq!(s.mid(), ServoPulse { period_ms: 20, pulse_us: 1500 });
    assert_eq!(s.set_position(-1_000_000).unwrap().pulse_us, 1000);
    assert_eq!(s.set_position(0).unwrap().pulse_us, 1500);
    assert_eq!(s.set_position(1_000_000).unwrap().pulse_us, 2000);
    assert_eq!(s.set_position(500_000).unwrap().pulse_us, 1750);
    // 500 and 1000 parts per million past the middle: 1500.25 rounds to 1500, 1500.5 up to 1501
    assert_eq!(s.set_position(500).unwrap().pulse_us, 1500);
    assert_eq!(s.set_position(1000).unwrap().pulse_us, 1501);
    assert_eq!(s.set_position(1_000_001), Err(RangeError::OutOfRange));
    assert_eq!(s.set_position(-1_000_001), Err(RangeError::OutOfRange));
}

#[test]
fn servo_width_setters() {
    let mut s = Servo::new();
    assert_eq!(s.set_min_pulse_width(2000), Err(RangeError::OutOfRange));
    assert_eq!(s.get_min_pulse_width(), 1000);
    s.set_min_pulse_width(500).unwrap();
    assert_eq!(s.get_min_pulse_width(), 500);
    assert_eq!(s.set_max_pulse_width(20_000), Err(RangeError::OutOfRange));
    assert_eq!(s.set_max_pulse_width(500), Err(RangeError::OutOfRange));
    s.set_max_pulse_width(2500).unwrap();
    assert_eq!(s.get_max_pulse_width(), 2500);
    s.set_frame_width(30);
    assert_eq!(s.get_frame_width(), 30);
    assert_eq!(s.mid(), ServoPulse { period_ms: 30, pulse_us: 1500 });
}
