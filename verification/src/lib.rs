//! Driver core for the Plantower PMSA003I particulate-matter sensor.
//!
//! The sensor answers every I2C read with one fixed 32-byte frame. This crate
//! holds the frame protocol: the start-of-frame check, the checksum check and
//! the decoding of the twelve measurement fields, together with the device
//! handle that owns the bus. Every function carries a contract that Verus
//! proves.

pub mod error;
pub mod frame;
pub mod pmsa003i;
pub mod types;

pub use crate::error::Error;
pub use crate::frame::RESPONSE_LENGTH;
pub use crate::pmsa003i::{Pmsa003i, DEVICE_ADDRESS};
pub use crate::types::Reading;
