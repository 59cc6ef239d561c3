//! The hardware line capability.

use vstd::prelude::*;

verus! {

/// The reading of one line at one instant, with the line's polarity already
/// resolved.
#[derive(Clone, Copy, Debug, PartialEq, Eq, Structural)]
pub enum GpioValue {
    Enabled,
    Disabled,
}

/// Why a line could not be read.
#[derive(Debug)]
pub struct GpioError {
    pub message: String,
}

/// A digital input line.
///
/// A read is fallible and its outcome is decided by the hardware alone: the
/// trait promises nothing of the value that comes back.
pub trait Gpio {
    /// Read the current state of the line.
    fn read(&mut self) -> Result<GpioValue, GpioError>;
}

} // verus!
