//! Protocol core of a driver for a capacitive soil moisture and temperature
//! sensor on a two-wire bus.
//!
//! The crate decides; it does not touch the bus. A measurement is a state
//! machine that names the bus or timer operation that is due and is advanced
//! with what came of it, so that one core serves a blocking caller and a
//! suspending one alike.

pub mod bytes;
pub mod error;
pub mod laws;
pub mod measurement;
pub mod prelude;
pub mod reading;
pub mod sensor;
pub mod transaction;

pub use crate::reading::{Reading, Temperature, TemperatureUnit};
pub use crate::sensor::SoilSensor;
