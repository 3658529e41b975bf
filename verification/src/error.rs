//! Errors of the HID++ communication layer.

use vstd::prelude::*;
use vstd::string::StringExecFns;

verus! {

/// Errors that the HID++ communication layer may produce.
#[derive(Debug)]
pub enum Error {
    /// The receiver or device is no longer available (removed, or the driver
    /// was unloaded).
    NoReceiver(String),
    /// The requested device number is not paired to the receiver.
    NoSuchDevice { number: u8, request: u16 },
    /// The device exists but cannot be reached (e.g. it is turned off).
    DeviceUnreachable { number: u8, request: u16 },
    /// The device answered a HID++ 2.0 feature call with an error.
    FeatureCallError { number: u8, request: u16, error: u8 },
    /// A lock was poisoned (a thread panicked while holding it).
    LockPoisoned,
    /// A protocol-level error (unexpected reply, missing feature, ...).
    Protocol(String),
}

/// A protocol error with the message `msg`.
pub fn protocol_error(msg: &str) -> (r: Error)
    ensures
        r matches Error::Protocol(m) && m@ == msg@,
{
    Error::Protocol(String::from_str(msg))
}

} // verus!

pub use crate::hidpp10_constants::ErrorCode as Hidpp10ErrorCode;
pub use crate::hidpp20_constants::ErrorCode as Hidpp20ErrorCode;
