use vstd::prelude::*;

verus! {

/// Status code the endpoint driver returns on success.
pub const DRIVER_SUCCESS: i32 = 0;
/// Status code: an argument was out of range or named nothing.
pub const DRIVER_INVALID_ARGUMENT: i32 = -1;
/// Status code: the host has not enumerated the device yet.
pub const DRIVER_NOT_ENUMERATED: i32 = -2;
/// Status code: the operation timed out.
pub const DRIVER_TIMEOUT: i32 = -3;
/// Status code: the operation is not implemented by the driver.
pub const DRIVER_NOT_IMPLEMENTED: i32 = -4;
/// Status code: a resource limit was reached.
pub const DRIVER_RESOURCE_LIMIT_REACHED: i32 = -5;
/// Status code: the resource is finalized and cannot be modified.
pub const DRIVER_ALREADY_FINALIZED: i32 = -6;
/// Status code: an error the driver does not describe further.
pub const DRIVER_NONDESCRIPT_ERROR: i32 = -7;

/// Errors of the endpoint driver and of the device session model.
#[derive(Debug, Clone, Copy, PartialEq, Eq, Structural)]
pub enum Error {
    /// Success (no error).
    Success,
    /// Invalid argument passed.
    InvalidArgument,
    /// USB device is not enumerated yet.
    NotEnumerated,
    /// The operation timed out.
    Timeout,
    /// Not implemented.
    NotImplemented,
    /// Resource limit reached.
    ResourceLimit,
    /// Resource is already finalized and cannot be modified.
    AlreadyFinalized,
    /// Unknown or undescribed error.
    Nondescript,
    /// A status code outside the driver's taxonomy.
    Invalid,
}

/// The user-facing description of each error.
pub open spec fn error_text(e: Error) -> Seq<char> {
    match e {
        Error::Success => "Success"@,
        Error::InvalidArgument => "Invalid argument passed"@,
        Error::NotEnumerated => "USB device is not enumerated yet"@,
        Error::Timeout => "Timed out"@,
        Error::NotImplemented => "Not implemented"@,
        Error::ResourceLimit => "Resource limit reached"@,
        Error::AlreadyFinalized => "Resource is already finalized and cannot be modified"@,
        Error::Nondescript => "Unknown or undescribed error"@,
        Error::Invalid => "Invalid"@,
    }
}

/// The error that a driver status code stands for.
pub open spec fn error_of_code(code: i32) -> Error {
    if code == DRIVER_SUCCESS {
        Error::Success
    } else if code == DRIVER_INVALID_ARGUMENT {
        Error::InvalidArgument
    } else if code == DRIVER_NOT_ENUMERATED {
        Error::NotEnumerated
    } else if code == DRIVER_TIMEOUT {
        Error::Timeout
    } else if code == DRIVER_NOT_IMPLEMENTED {
        Error::NotImplemented
    } else if code == DRIVER_RESOURCE_LIMIT_REACHED {
        Error::ResourceLimit
    } else if code == DRIVER_ALREADY_FINALIZED {
        Error::AlreadyFinalized
    } else if code == DRIVER_NONDESCRIPT_ERROR {
        Error::Nondescript
    } else {
        Error::Invalid
    }
}

/// What a driver call's return value means: a negative value is an error
/// code, any other value is the call's result.
pub open spec fn status_spec(code: i32) -> Result<i32, Error> {
    if code < 0 {
        Err(error_of_code(code))
    } else {
        Ok(code)
    }
}

impl Error {
    /// Returns a description of an error suitable for display to an end user.
    pub fn strerror(&self) -> (r: &'static str)
        ensures
            r@ == error_text(*self),
    {
        match *self {
            Error::Success => "Success",
            Error::InvalidArgument => "Invalid argument passed",
            Error::NotEnumerated => "USB device is not enumerated yet",
            Error::Timeout => "Timed out",
            Error::NotImplemented => "Not implemented",
            Error::ResourceLimit => "Resource limit reached",
            Error::AlreadyFinalized => "Resource is already finalized and cannot be modified",
            Error::Nondescript => "Unknown or undescribed error",
            Error::Invalid => "Invalid",
        }
    }
}

/// Maps a driver status code to the error it stands for.
pub fn from_libusb(err: i32) -> (r: Error)
    ensures
        r == error_of_code(err),
{
    if err == DRIVER_SUCCESS {
        Error::Success
    } else if err == DRIVER_INVALID_ARGUMENT {
        Error::InvalidArgument
    } else if err == DRIVER_NOT_ENUMERATED {
        Error::NotEnumerated
    } else if err == DRIVER_TIMEOUT {
        Error::Timeout
    } else if err == DRIVER_NOT_IMPLEMENTED {
        Error::NotImplemented
    } else if err == DRIVER_RESOURCE_LIMIT_REACHED {
        Error::ResourceLimit
    } else if err == DRIVER_ALREADY_FINALIZED {
        Error::AlreadyFinalized
    } else if err == DRIVER_NONDESCRIPT_ERROR {
        Error::Nondescript
    } else {
        Error::Invalid
    }
}

/// Interprets the return value of a driver call.
pub fn status(code: i32) -> (r: Result<i32, Error>)
    ensures
        r == status_spec(code),
{
    if code < 0 {
        Err(from_libusb(code))
    } else {
        Ok(code)
    }
}

/// Why an endpoint transfer produced no data.
#[derive(Debug, Clone, Copy, PartialEq, Eq, Structural)]
pub enum TransferError {
    /// The transfer could not be started.
    DriverRejected,
    /// No data arrived in time; an expected outcome, not a failure.
    Timeout,
    /// The transfer was cancelled explicitly.
    Aborted,
    /// Any other failure the driver reported.
    DriverError,
}

/// How a driver error observed while a transfer was outstanding is reported.
pub open spec fn transfer_error_of(e: Error) -> TransferError {
    if e == Error::Timeout {
        TransferError::Timeout
    } else {
        TransferError::DriverError
    }
}

impl TransferError {
    /// Maps a driver error seen on an outstanding transfer.
    pub fn from_driver(e: Error) -> (r: TransferError)
        ensures
            r == transfer_error_of(e),
    {
        if e == Error::Timeout {
            TransferError::Timeout
        } else {
            TransferError::DriverError
        }
    }
}

} // verus!
