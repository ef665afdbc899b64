use vstd::prelude::*;

use crate::error::Error;

verus! {

/// Capability of a pin usable as a digital input: its logic level can be
/// read, and it can be placed into input mode.
///
/// This is a pure contract with no state; consumers depend on it rather
/// than on a concrete hardware binding, so a concrete binding and a stand-in
/// implement the same interface.
pub trait DigitalIn {
    /// Current logic level: `true` is high, `false` is low.
    fn read(&self) -> Result<bool, Error>;

    /// Place the pin into input mode.
    fn set_to_input(&mut self) -> Result<(), Error>;
}

/// Capability of a pin usable as a digital output: it can be driven high or
/// low, and it can be placed into output mode.
pub trait DigitalOut {
    /// Drive the pin low.
    fn set_low(&mut self) -> Result<(), Error>;

    /// Drive the pin high.
    fn set_high(&mut self) -> Result<(), Error>;

    /// Place the pin into output mode.
    fn set_to_output(&mut self) -> Result<(), Error>;
}

/// The union capability: a pin usable as either a digital input or a digital
/// output may be used polymorphically wherever one of the two is required.
pub trait DigitalIO: DigitalIn + DigitalOut {
}

} // verus!
