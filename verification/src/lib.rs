//! A driver for the QMP6988 barometric pressure sensor.
//!
//! The driver does no I/O itself: [`Qmp6988`] is a state machine that hands
//! out the bus actions to perform (I2C writes, write-then-read transactions,
//! waits) and takes their results back.

pub mod calibration;
pub mod device;
pub mod error;
pub mod properties;
pub mod settings;

pub use calibration::Coe;
pub use device::{
    Action, DeviceState, Event, Outcome, Phase, Qmp6988, RawMeasurement, Request,
    DEFAULT_I2C_ADDRESS, I2C_ADDRESS_LOGIC_HIGH, I2C_ADDRESS_LOGIC_LOW,
};
pub use error::Error;
pub use settings::{IirFilter, OverSamplingSetting};
