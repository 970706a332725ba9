//! Errors of the library, and the pin check.

use vstd::prelude::*;
use crate::key::{append_decimal, decimal, IO_PIN_COUNT};

verus! {

/// Errors reported by the device operations.
#[derive(Debug)]
pub enum ObnizError {
    /// Connection errors
    Connection(String),
    /// WebSocket communication errors
    WebSocket(String),
    /// IO operation errors
    IoOperation(String),
    /// Invalid pin number (valid range: 0-11)
    InvalidPin(u8),
    /// JSON parsing errors
    JsonParse(String),
    /// Response timeout
    Timeout,
    /// Callback registration errors
    CallbackError(String),
    /// Device not found or invalid device ID
    DeviceNotFound(String),
    /// Permission denied
    PermissionDenied,
    /// Generic error with message
    Generic(String),
}

/// Result of a device operation.
pub type ObnizResult<T> = Result<T, ObnizError>;

/// The message of an error.
pub open spec fn error_message(e: ObnizError) -> Seq<char> {
    match e {
        ObnizError::Connection(m) => "Connection error: "@ + m@,
        ObnizError::WebSocket(m) => "WebSocket error: "@ + m@,
        ObnizError::IoOperation(m) => "IO operation error: "@ + m@,
        ObnizError::InvalidPin(p) => "Invalid pin number: "@ + decimal(p as nat)
            + ". Valid range is 0-11"@,
        ObnizError::JsonParse(m) => "JSON parse error: "@ + m@,
        ObnizError::Timeout => "Operation timed out"@,
        ObnizError::CallbackError(m) => "Callback error: "@ + m@,
        ObnizError::DeviceNotFound(id) => "Device not found: "@ + id@,
        ObnizError::PermissionDenied => "Permission denied"@,
        ObnizError::Generic(m) => "Error: "@ + m@,
    }
}

fn prefixed(prefix: &str, m: &String) -> (r: String)
    ensures
        r@ == prefix@ + m@,
{
    let mut r = String::from_str(prefix);
    r.append(m.as_str());
    r
}

impl ObnizError {
    /// The human-readable message of the error.
    pub fn to_string(&self) -> (r: String)
        ensures
            r@ == error_message(*self),
    {
        match self {
            ObnizError::Connection(m) => prefixed("Connection error: ", m),
            ObnizError::WebSocket(m) => prefixed("WebSocket error: ", m),
            ObnizError::IoOperation(m) => prefixed("IO operation error: ", m),
            ObnizError::InvalidPin(p) => {
                let mut r = String::from_str("Invalid pin number: ");
                append_decimal(&mut r, *p);
                r.append(". Valid range is 0-11");
                r
            },
            ObnizError::JsonParse(m) => prefixed("JSON parse error: ", m),
            ObnizError::Timeout => String::from_str("Operation timed out"),
            ObnizError::CallbackError(m) => prefixed("Callback error: ", m),
            ObnizError::DeviceNotFound(id) => prefixed("Device not found: ", id),
            ObnizError::PermissionDenied => String::from_str("Permission denied"),
            ObnizError::Generic(m) => prefixed("Error: ", m),
        }
    }
}

/// Checks that `pin` names one of the I/O pins 0 to 11.
pub fn validate_pin(pin: u8) -> (r: ObnizResult<()>)
    ensures
        r is Ok <==> pin < IO_PIN_COUNT,
        r is Err ==> (r matches Err(ObnizError::InvalidPin(p)) && p == pin),
{
    if pin >= IO_PIN_COUNT {
        Err(ObnizError::InvalidPin(pin))
    } else {
        Ok(())
    }
}

} // verus!
