//! First byte of each shutter command.

use vstd::prelude::*;

verus! {

pub const GO: u8 = 0x01;

pub const OPEN: u8 = 0x02;

pub const CLOSE: u8 = 0x03;

pub const TILT: u8 = 0x04;

pub const TILT_CLOSE: u8 = 0x05;

pub const TILT_OPEN: u8 = 0x06;

pub const TILT_HALF: u8 = 0x07;

pub const TILT_REVERSE: u8 = 0x08;

pub const SET_IO: u8 = 0x10;

} // verus!
