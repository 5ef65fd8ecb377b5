//! Register-level logic of a driver for the Vishay VEML6030 ambient light sensor.
//!
//! - `bits`: reading and writing bit fields of a 16-bit register word.
//! - `regs`: register addresses, setting codes and the registers' bit fields.
//! - `sensor`: the sensor's cached state and the bus transactions of each operation.
//! - `builder`: collecting settings and the register writes that bring the sensor up.
//! - `blocking`: the plain interface that reads the configuration back before each change.
//! - `error`: the driver's errors.

pub mod bits;
pub mod blocking;
pub mod builder;
pub mod error;
pub mod regs;
pub mod sensor;
