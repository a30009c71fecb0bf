//! Errors of the PD200X driver.

use vstd::prelude::*;

verus! {

/// Errors returned by PD200X operations.
#[derive(Debug)]
pub enum Error {
    /// No PD200X was found on any USB bus.
    DeviceNotFound,
    /// A low-level HID error, carried as its message.
    Hid(String),
    /// The device did not answer a query in time.
    Timeout,
    /// The device returned a packet that failed magic-byte or checksum validation.
    BadResponse,
}

/// Result type of PD200X operations.
pub type Result<T> = std::result::Result<T, Error>;

} // verus!
