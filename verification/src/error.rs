//! The errors the driver reports.

use vstd::prelude::*;

verus! {

/// All possible errors generated when using the Qmp6988 driver, `E` being the
/// error type of the I2C bus.
#[derive(Debug)]
pub enum Error<E> {
    /// I²C bus error
    I2c(E),
    /// The QMP6988 chip has not been detected
    ChipNotDetected,
    /// The computed CRC and the one sent by the device mismatch
    BadCrc,
}

impl<E> From<E> for Error<E> {
    fn from(value: E) -> (e: Self) {
        Error::I2c(value)
    }
}

impl<E> vstd::std_specs::convert::FromSpecImpl<E> for Error<E> {
    open spec fn obeys_from_spec() -> bool {
        true
    }

    /// A bus error becomes an `I2c` error that holds it.
    open spec fn from_spec(v: E) -> Self {
        Error::I2c(v)
    }
}

} // verus!
