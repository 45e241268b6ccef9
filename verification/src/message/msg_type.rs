//! Message type codes. A code has five bits, and the lower the code, the
//! sooner the message wins the bus: rare and urgent events come first.
//!
//! Codes 0x00 and 0x01 are kept for an invalid message and for a
//! high-priority group, 0x1F for a low-priority group.

use vstd::prelude::*;

verus! {

/// Something went wrong on a device; carries an error code.
pub const ERROR: u8 = 0x02;

/// An output of the sender changed.
pub const OUTPUT_CHANGED: u8 = 0x04;

/// An input of the sender changed.
pub const INPUT_CHANGED: u8 = 0x05;

/// Switch an output on or off, or invert it.
pub const SET_OUTPUT: u8 = 0x08;

/// Act as if an input had been triggered by hand.
pub const TRIGGER_INPUT: u8 = 0x09;

/// Run a procedure stored on the device.
pub const CALL_PROC: u8 = 0x0A;

/// Command to a shutter driver.
pub const CALL_SHUTTER: u8 = 0x0B;

/// Ask a device for its status.
pub const REQUEST_STATUS: u8 = 0x0D;

/// State of one input or output, on request or at start; not a change.
pub const STATUS_IO: u8 = 0x0E;

/// Periodic status, not raised by any event.
pub const STATUS: u8 = 0x10;

/// Current date and time, for every device.
pub const TIME_ANNOUNCEMENT: u8 = 0x11;

/// Like `ERROR`, with low priority: for instance, a device has started.
pub const INFO: u8 = 0x12;

/// Answer to `PING`.
pub const PONG: u8 = 0x1D;

/// Probe that carries a small body to be echoed.
pub const PING: u8 = 0x1E;

} // verus!
