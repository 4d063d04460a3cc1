//! MPR121 capacitive touch controller.
//!
//! The MPR121 is a 12-channel capacitive touch sensor on I2C. [`config`] holds
//! its configuration types, [`registers`] the register map and the values that a
//! configuration packs into it, [`device`] the driver, [`reading`] the laws of what
//! its replies mean, and [`sensor`] a model of the device's registers with the laws
//! of what is written to them.
//!
//! A register write is two bytes on the bus (`[reg, val]`); reads use the
//! device's register auto-increment to pull a contiguous block in one transfer.
//! The driver decides what goes over the bus and what the replies mean; the
//! caller performs the transfers.

pub mod config;
pub mod device;
pub mod reading;
pub mod registers;
pub mod sensor;

pub use crate::mpr121::config::{
    AfeConfig, AutoConfig, AutoConfigRetry, BaselineFilter, CalibrationLock, ChargeDischargeTime,
    Debounce, DebounceConfig, ElectrodeConfig, FirstFilterIterations, Mpr121Config, ProximityMode,
    SampleInterval, SecondFilterIterations, ThresholdConfig, CHANNELS,
};
pub use crate::mpr121::device::{Mpr121, Mpr121Error, DEFAULT_ADDRESS};
