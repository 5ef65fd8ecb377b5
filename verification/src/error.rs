//! Errors of the sensor driver.
use vstd::prelude::*;

verus! {

/// What can go wrong while talking to the sensor.
#[derive(Debug, Clone, Copy, PartialEq, Eq, Structural)]
pub enum Error {
    I2CReadError,
    I2CWriteError,
    InterruptError,
    Timeout,
}

impl Error {
    /// The human-readable message of the error.
    pub fn message(&self) -> (r: &'static str)
        ensures
            *self == Error::I2CReadError ==> r@ == "I2C read failure"@,
            *self == Error::I2CWriteError ==> r@ == "I2C write failure"@,
            *self == Error::InterruptError ==> r@ == "Interrupt pin error"@,
            *self == Error::Timeout ==> r@ == "Timeout error"@,
    {
        match self {
            Error::I2CReadError => "I2C read failure",
            Error::I2CWriteError => "I2C write failure",
            Error::InterruptError => "Interrupt pin error",
            Error::Timeout => "Timeout error",
        }
    }
}

} // verus!
