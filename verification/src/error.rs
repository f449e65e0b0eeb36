//! The error type of every fallible operation.

use crate::text::{push_str, string_of};
use vstd::prelude::*;

verus! {

#[verifier::external_type_specification]
#[verifier::external_body]
pub struct ExIoError(std::io::Error);

#[derive(Debug)]
pub enum AppError {
    Io(String),
    CommandFailed(String),
    DiskError(String),
    UsbError(String),
    ImageError(String),
    SystemError(String),
    PermissionDenied,
    DeviceNotFound(String),
    InvalidParameter(String),
    JsonError(String),
    Utf8Error(String),
    Unsupported(String),
    Unknown,
}

/// The text `AppError` displays, as the front end receives it.
pub open spec fn spec_message(e: AppError) -> Seq<char> {
    match e {
        AppError::Io(s) => "IO error: "@ + s@,
        AppError::CommandFailed(s) => "Command execution failed: "@ + s@,
        AppError::DiskError(s) => "Disk operation failed: "@ + s@,
        AppError::UsbError(s) => "USB device error: "@ + s@,
        AppError::ImageError(s) => "Image operation failed: "@ + s@,
        AppError::SystemError(s) => "System error: "@ + s@,
        AppError::PermissionDenied => "Permission denied"@,
        AppError::DeviceNotFound(s) => "Device not found: "@ + s@,
        AppError::InvalidParameter(s) => "Invalid parameter: "@ + s@,
        AppError::JsonError(s) => "JSON error: "@ + s@,
        AppError::Utf8Error(s) => "UTF8 error: "@ + s@,
        AppError::Unsupported(s) => "Unsupported operation: "@ + s@,
        AppError::Unknown => "Unknown error"@,
    }
}

fn prefixed(p: &str, s: &String) -> (r: String)
    ensures
        r@ == p@ + s@,
{
    let mut r = string_of(p);
    push_str(&mut r, s.as_str());
    r
}

/// The display text of an I/O error (`io::Error::to_string`); what it says
/// is left to the operating system and is not stated.
#[verifier::external_body]
fn io_error_text(err: &std::io::Error) -> String {
    err.to_string()
}

impl AppError {
    /// The message the error displays (and is serialised as).
    pub fn message(&self) -> (r: String)
        ensures
            r@ == spec_message(*self),
    {
        match self {
            AppError::Io(s) => prefixed("IO error: ", s),
            AppError::CommandFailed(s) => prefixed("Command execution failed: ", s),
            AppError::DiskError(s) => prefixed("Disk operation failed: ", s),
            AppError::UsbError(s) => prefixed("USB device error: ", s),
            AppError::ImageError(s) => prefixed("Image operation failed: ", s),
            AppError::SystemError(s) => prefixed("System error: ", s),
            AppError::PermissionDenied => string_of("Permission denied"),
            AppError::DeviceNotFound(s) => prefixed("Device not found: ", s),
            AppError::InvalidParameter(s) => prefixed("Invalid parameter: ", s),
            AppError::JsonError(s) => prefixed("JSON error: ", s),
            AppError::Utf8Error(s) => prefixed("UTF8 error: ", s),
            AppError::Unsupported(s) => prefixed("Unsupported operation: ", s),
            AppError::Unknown => string_of("Unknown error"),
        }
    }

    /// An I/O failure, carrying the error's display text.
    pub fn io(err: std::io::Error) -> (r: AppError)
        ensures
            r is Io,
    {
        AppError::Io(io_error_text(&err))
    }
}

} // verus!
