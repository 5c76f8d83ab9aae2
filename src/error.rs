use vstd::prelude::*;

verus! {

/// A request that lies outside what a device accepts; the device is left as it was.
#[derive(Clone, Copy, Debug, PartialEq, Eq, Structural)]
pub enum RangeError {
    /// A duty cycle, speed or position outside its range.
    OutOfRange,
    /// A blink or pulse whose four times are all zero.
    EmptyWaveform,
    /// A repeat count of zero.
    ZeroRepeat,
}

/// `wait` was called while no background playback was running.
#[derive(Clone, Copy, Debug, PartialEq, Eq, Structural)]
pub struct NotRunningError;

} // verus!
