//! The USB raster protocol of Brother QL printers: errors, orientation and the
//! protocol's sub-modules.

use vstd::prelude::*;

pub mod constants;
pub mod job;
pub mod session;
pub mod status;

verus! {

/// The transport-level errors a bulk transfer can report.
#[derive(Debug, Clone, Copy, PartialEq, Eq, Structural)]
pub enum UsbError {
    Io,
    InvalidParam,
    Access,
    NoDevice,
    NotFound,
    Busy,
    Timeout,
    Overflow,
    Pipe,
    Interrupted,
    NoMem,
    NotSupported,
    BadDescriptor,
    Other,
}

/// Errors of the driver.
#[derive(Debug)]
pub enum PrinterError {
    /// A transfer failed; carried as the transport reported it.
    Usb(UsbError),
    /// The device does not have the expected interface layout.
    Device(String),
    /// The printer broke the protocol at run time.
    Printer(String),
}

/// Builds a protocol error whose message is `msg`.
pub fn printer_error(msg: &str) -> (r: PrinterError)
    ensures
        r is Printer,
        r->Printer_0@ == msg@,
{
    PrinterError::Printer(msg.to_owned())
}

/// Orientation of the label.
///
/// Normal: label is printed so that you can read text when looking straight on.
/// Rotated: label is printed so that you have to turn your head to read it.
#[derive(Debug, Clone, Copy, PartialEq, Eq, Structural)]
pub enum Orientation {
    Normal,
    Rotated,
}

} // verus!
