//! Plain descriptions of the commands the surrounding tool runs.
//!
//! These types carry no argument-parsing machinery: they are the data a
//! front end hands over once it has read its command line, so the choice of
//! parser stays outside the library.

use vstd::prelude::*;

verus! {

/// One invocation of the tool: exactly one command.
#[derive(Debug)]
pub struct Cli {
    pub command: Commands,
}

/// The commands the tool understands.
#[derive(Debug)]
pub enum Commands {
    /// List the capture-capable network devices.
    ListDevices,
    /// Capture frames from a device, optionally filtered, saved to a file,
    /// or dissected as they arrive. A `count` of zero means no limit.
    Capture {
        device: String,
        promiscuous: bool,
        snaplen: usize,
        count: usize,
        filter: Option<String>,
        output_file: Option<String>,
        realtime_analysis: bool,
    },
    /// Dissect the frames held in a recorded capture file, or a raw file's
    /// bytes as one frame.
    Analyze { packet_file: String },
}

} // verus!
