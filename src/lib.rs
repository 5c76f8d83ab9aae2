//! A simple interface to GPIO devices on single-board computers.
//!
//! The library holds the decisions of each device as plain state machines:
//! what level or duty cycle to write to a pin, when a background blink or pulse
//! writes its next step, and which writes belong to a cancelled run. Driving
//! the pins themselves is left to the caller.
//!
//! Duty cycles are given in parts per million (`0..=DUTY_SCALE`) and times in
//! milliseconds.

pub mod digital;
pub mod driver;
pub mod error;
pub mod input;
pub mod motor;
pub mod polarity;
pub mod servo;
pub mod waveform;

pub use crate::digital::{Buzzer, DigitalOutputDevice, LED};
pub use crate::driver::{PWMOutputDevice, PinWrite, StepAction, PWMLED};
pub use crate::error::{NotRunningError, RangeError};
pub use crate::input::{Button, Debounced, DigitalInputDevice};
pub use crate::motor::Motor;
pub use crate::polarity::{InputDevice, OutputDevice};
pub use crate::servo::{Servo, ServoPulse};
pub use crate::waveform::{BlinkSpec, WaveformStep, DUTY_SCALE, SAMPLE_RATE};
