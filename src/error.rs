//! The errors that the driver reports.
use vstd::prelude::*;

verus! {

/// Why an operation on the fan controller failed.
#[derive(Clone, Copy, Debug, PartialEq, Eq, Structural)]
pub enum Error {
    /// A transfer on the two-wire bus failed.
    BusError,
    /// The product identifier register holds no known chip variant.
    InvalidDeviceId,
    /// The manufacturer identifier register holds an unexpected value.
    InvalidManufacturerId,
    /// The fan selector is zero or above the chip's fan count.
    InvalidFan,
    /// A derived address names no register of the catalog.
    InvalidRegister,
    /// A raw byte could not be mapped to the expected typed value.
    RegisterTypeConversion,
    /// A requested or computed duty cycle or speed does not fit the register.
    SpeedOutOfRange,
}

impl Error {
    /// A short description of the error.
    pub fn message(&self) -> (r: &'static str) {
        match self {
            Error::BusError => "I2C bus error",
            Error::InvalidDeviceId => "Invalid device identifier",
            Error::InvalidManufacturerId => "Invalid manufacturer identifier",
            Error::InvalidFan => "Invalid fan number",
            Error::InvalidRegister => "Invalid register address",
            Error::RegisterTypeConversion => "Failed to convert register value to specific type",
            Error::SpeedOutOfRange => "Speed out of range",
        }
    }
}

} // verus!
