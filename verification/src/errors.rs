//! Error values surfaced by the capture setup path, with verified renderings
//! of their diagnostic text.

use vstd::prelude::*;
use vstd::string::StringExecFns;
use crate::text::spec_dec;
use crate::text::u64_to_decimal;

verus! {

/// The errors a capture session can report while being set up, or while
/// persisting a report. Per-packet decode failures are never one of these:
/// they are non-fatal and stay inside the capture loop.
#[derive(Debug)]
pub enum PacketSnifferError {
    /// The flush interval was below the accepted minimum; carries the value.
    InvalidInterval(u64),
    /// The device was found but could not be activated; carries the device
    /// name and the underlying diagnostic text.
    InactivableCapture(String, String),
    /// No device of the given name could be opened; carries the device name
    /// and the underlying diagnostic text.
    InvalidCapture(String, String),
    /// The device list could not be obtained; carries the diagnostic text.
    UnavailableDeviceList(String),
    /// The report file could not be opened or written; carries the diagnostic
    /// text.
    FileError(String),
    /// The filter expression did not compile; carries the expression and the
    /// diagnostic text.
    InvalidFilter(String, String),
}

/// The diagnostic line that `PacketSnifferError::message` renders.
pub open spec fn spec_sniffer_error_message(e: &PacketSnifferError) -> Seq<char> {
    match e {
        PacketSnifferError::InvalidInterval(i) => "Error: Invalid Interval value: "@ + spec_dec(
            *i as nat,
        ) + ", interval must be greater than 100 ms"@,
        PacketSnifferError::InvalidCapture(name, detail) => "Error: Possible invalid device name: "@
            + name@ + ".\nDetailed error: "@ + detail@,
        PacketSnifferError::InactivableCapture(name, detail) => "Cannot capture from device: "@
            + name@ + ", check if the name is correct or if you have permissions.\nDetailed error: "@
            + detail@,
        PacketSnifferError::UnavailableDeviceList(detail) => "Cannot get device list, check if you have permission or if there are available devices.\nDetailed error: "@
            + detail@,
        PacketSnifferError::FileError(detail) => "File error: "@ + detail@,
        PacketSnifferError::InvalidFilter(filter, detail) => "Invalid filter: "@ + filter@
            + ", check https://biot.com/capstats/bpf.html to know the syntax.\nDetailed error: "@
            + detail@,
    }
}

impl PacketSnifferError {
    /// Renders the error as the diagnostic line shown to a caller.
    pub fn message(&self) -> (r: String)
        ensures
            r@ == spec_sniffer_error_message(self),
    {
        match self {
            PacketSnifferError::InvalidInterval(i) => {
                let mut s = String::from_str("Error: Invalid Interval value: ");
                let num = u64_to_decimal(*i);
                s.append(num.as_str());
                s.append(", interval must be greater than 100 ms");
                s
            },
            PacketSnifferError::InvalidCapture(name, detail) => {
                let mut s = String::from_str("Error: Possible invalid device name: ");
                s.append(name.as_str());
                s.append(".\nDetailed error: ");
                s.append(detail.as_str());
                s
            },
            PacketSnifferError::InactivableCapture(name, detail) => {
                let mut s = String::from_str("Cannot capture from device: ");
                s.append(name.as_str());
                s.append(
                    ", check if the name is correct or if you have permissions.\nDetailed error: ",
                );
                s.append(detail.as_str());
                s
            },
            PacketSnifferError::UnavailableDeviceList(detail) => {
                let mut s = String::from_str(
                    "Cannot get device list, check if you have permission or if there are available devices.\nDetailed error: ",
                );
                s.append(detail.as_str());
                s
            },
            PacketSnifferError::FileError(detail) => {
                let mut s = String::from_str("File error: ");
                s.append(detail.as_str());
                s
            },
            PacketSnifferError::InvalidFilter(filter, detail) => {
                let mut s = String::from_str("Invalid filter: ");
                s.append(filter.as_str());
                s.append(
                    ", check https://biot.com/capstats/bpf.html to know the syntax.\nDetailed error: ",
                );
                s.append(detail.as_str());
                s
            },
        }
    }
}

/// The reduced error enumeration of the capture front end.
#[derive(Debug)]
pub enum Errors {
    /// The flush interval was below the accepted minimum; carries the value.
    InvalidInterval(u64),
}

/// The diagnostic line that `Errors::message` renders: the variant in its
/// debug shape, behind an `Error: ` prefix.
pub open spec fn spec_errors_message(e: &Errors) -> Seq<char> {
    match e {
        Errors::InvalidInterval(i) => "Error: InvalidInterval("@ + spec_dec(*i as nat) + ")"@,
    }
}

impl Errors {
    /// Renders the error as the diagnostic line shown to a caller.
    pub fn message(&self) -> (r: String)
        ensures
            r@ == spec_errors_message(self),
    {
        match self {
            Errors::InvalidInterval(i) => {
                let mut s = String::from_str("Error: InvalidInterval(");
                let num = u64_to_decimal(*i);
                s.append(num.as_str());
                s.append(")");
                s
            },
        }
    }
}

} // verus!
