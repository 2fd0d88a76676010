use libusbd::error::{from_libusb, status};
use libusbd::{Error, TransferError};

#[test]
fn driver_codes_map_to_errors() {
    assert_eq!(from_libusb(0), Error::Success);
    assert_eq!(from_libusb(-1), Error::InvalidArgument);
    assert_eq!(from_libusb(-2), Error::NotEnumerated);
    assert_eq!(from_libusb(-3), Error::Timeout);
    assert_eq!(from_libusb(-4), Error::NotImplemented);
    assert_eq!(from_libusb(-5), Error::ResourceLimit);
    assert_eq!(from_libusb(-6), Error::AlreadyFinalized);
    assert_eq!(from_libusb(-7), Error::Nondescript);
    assert_eq!(from_libusb(-99), Error::Invalid);
}

#[test]
fn negative_status_is_an_error() {
    assert_eq!(status(12), Ok(12));
    assert_eq!(status(0), Ok(0));
    assert_eq!(status(-5), Err(Error::ResourceLimit));
    assert_eq!(status(-1000), Err(Error::Invalid));
}

#[test]
fn errors_describe_themselves() {
    assert_eq!(Error::Success.strerror(), "Success");
    assert_eq!(Error::Timeout.strerror(), "Timed out");
    assert_eq!(Error::AlreadyFinalized.strerror(), "Resource is already finalized and cannot be modified");
    assert_eq!(Error::Invalid.strerror(), "Invalid");
}

#[test]
fn only_timeouts_stay_timeouts() {
    assert_eq!(TransferError::from_driver(Error::Timeout), TransferError::Timeout);
    assert_eq!(TransferError::from_driver(Error::NotEnumerated), TransferError::DriverError);
}
