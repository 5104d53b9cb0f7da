//! The command-line surface, as plain data: what a caller asks the sniffer
//! to do. The argument parser itself lives outside the crate and converts
//! into these values.

use vstd::prelude::*;

verus! {

/// A whole invocation: one of the two commands.
pub struct MyCommand {
    /// The command to run.
    pub command_type: Comms,
}

/// The two things the tool can be asked to do.
pub enum Comms {
    /// Start a capture.
    Capture(CaptureCommand),
    /// List the capture devices with their descriptions and addresses.
    Devices(DevicesCommand),
}

/// The arguments of a capture run.
pub struct CaptureCommand {
    /// The name of the network interface to capture from.
    pub device_name: String,
    /// The report file's name; an existing file is appended to.
    pub file_name: String,
    /// The interval, in milliseconds, after which each new report section is
    /// written.
    pub interval: u64,
}

/// The device-listing command carries no arguments.
pub struct DevicesCommand {

}

} // verus!
