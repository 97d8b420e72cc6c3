//! Verified core of a MAX31865 RTD-to-digital sensor driver.
//!
//! The crate models the driver protocol for the MAX31865 analog front end:
//! logical-to-physical GPIO pin resolution, SPI register frame construction,
//! the configuration-byte encoding, raw ADC decoding against a calibration
//! constant, and resistance-to-temperature conversion over a monotonic lookup
//! table. All bus and GPIO I/O is left to the caller, which hands raw bytes in
//! and takes plain values back.

pub mod config;
pub mod decode;
pub mod driver;
pub mod lookup;
pub mod pins;
pub mod registers;
