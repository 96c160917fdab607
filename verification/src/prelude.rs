//! The names most callers need.

pub use crate::error::SoilMoistureSensorError;
pub use crate::{SoilSensor, TemperatureUnit};
