//! Records as they travel on the bus, the typed messages they stand for, and
//! the codec between the two.
//!
//! The bus has 11-bit addresses, and a lower address wins the bus. Up to 64
//! devices share it, so an address is made of a 5-bit message type above a
//! 6-bit device address: `TTTTTAAAAAA`.

use vstd::prelude::*;
use vstd::slice::slice_subrange;

use crate::consts::{InIdx, OutIdx, ProcIdx, ShutterIdx};
use crate::message::endian::{
    le16, le16_bytes, le32, le32_bytes, u16_from_le, u16_to_le, u32_from_le, u32_to_le,
};
use crate::shutters;

pub mod args;
pub mod endian;
pub mod laws;
pub mod msg_type;

verus! {

/// The device address that every device listens to.
pub const BROADCAST_ADDRESS: u8 = 0x3f;

/// Number of payload bytes that a record can carry.
pub const MAX_PAYLOAD: usize = 8;

/// What a record says: whom it concerns, which type of message it is, and
/// the payload bytes that count.
pub struct WireRecord {
    pub addr: u8,
    pub msg_type: u8,
    pub payload: Seq<u8>,
}

impl WireRecord {
    /// The payload fits into a record.
    pub open spec fn wf(self) -> bool {
        self.payload.len() <= MAX_PAYLOAD
    }

    /// The address and the type each fit the bits that the bus gives them.
    pub open spec fn fits_bus(self) -> bool {
        self.addr <= 0x3F && self.msg_type <= 0x1F
    }

    /// The 11-bit bus address: the low five bits of the type above the low
    /// six bits of the device address.
    pub open spec fn can_addr(self) -> u16 {
        (64 * (self.msg_type as int % 32) + self.addr as int % 64) as u16
    }
}

/// The parts of an 11-bit bus address: the device address, then the message type.
pub open spec fn can_parts(can_addr: u16) -> (u8, u8) {
    (can_device(can_addr), can_msg_type(can_addr))
}

/// The message type of an 11-bit bus address.
pub open spec fn can_msg_type(can_addr: u16) -> u8 {
    ((can_addr as int / 64) % 32) as u8
}

/// The device address of an 11-bit bus address.
pub open spec fn can_device(can_addr: u16) -> u8 {
    (can_addr as int % 64) as u8
}

/// Why a record stands for no message.
#[derive(Debug, Clone, Copy, PartialEq, Eq, Structural)]
pub enum DecodeError {
    /// No message has this type code.
    UnknownType,
    /// The payload has not the length that the type calls for.
    LengthMismatch,
    /// A byte that should name one of a few values names none of them.
    InvalidEnumValue,
}

/// A message of the bus, decoded.
#[derive(Debug, Clone, Copy, PartialEq, Eq, Structural)]
#[allow(inconsistent_fields)]
pub enum Message {
    /// Something went wrong on a device.
    Error { code: u32 },
    /// Something ordinary or slightly odd happened, such as a start.
    Info { code: u16, arg: u32 },
    /// An output was changed.
    OutputChanged { output: OutIdx, state: args::OutputChangeRequest },
    /// Current state of an input or output; not a change.
    StatusIO { io: args::IOType, state: args::IOState },
    /// An input was changed.
    InputChanged { input: InIdx, trigger: args::Trigger },
    /// Request to change an output.
    SetOutput { output: OutIdx, state: args::OutputChangeRequest },
    /// Request to act as if an input had been triggered.
    TriggerInput { input: InIdx, trigger: args::Trigger },
    /// Command to a shutter driver.
    ShutterCmd { shutter_idx: ShutterIdx, cmd: shutters::Cmd },
    /// Request for a device's status.
    RequestStatus,
    /// Probe with a small body to be echoed.
    Ping { body: u16 },
    /// Answer to a probe.
    Pong { body: u16 },
    /// Periodic status, not raised by any event.
    Status { uptime: u32, errors: u16, warnings: u16 },
    /// Current date and time, sent to the devices.
    TimeAnnouncement {
        year: u16,
        month: u8,
        day: u8,
        hour: u8,
        minute: u8,
        second: u8,
        day_of_week: u8,
    },
    /// Request to run a stored procedure.
    CallProcedure { proc_id: ProcIdx },
}

/// A record prepared for sending or just received.
#[derive(Debug)]
pub struct MessageRaw {
    /// Device address: the source of an answer or a status, the destination of a request.
    addr: u8,
    msg_type: u8,
    length: u8,
    data: [u8; 8],
}

impl View for MessageRaw {
    type V = WireRecord;

    closed spec fn view(&self) -> WireRecord {
        WireRecord {
            addr: self.addr,
            msg_type: self.msg_type,
            payload: self.data@.subrange(0, self.length as int),
        }
    }
}

impl Default for MessageRaw {
    fn default() -> (raw: Self)
        ensures
            raw@ == (WireRecord { addr: 0, msg_type: 0, payload: Seq::empty() }),
            raw@.wf(),
    {
        let raw = Self { addr: 0, msg_type: 0, length: 0, data: [0; 8] };
        assert(raw@.payload =~= Seq::empty());
        raw
    }
}

impl MessageRaw {
    /// At most eight bytes count, and the bytes that do not count are zero.
    #[verifier::type_invariant]
    closed spec fn inv(&self) -> bool {
        &&& self.length <= 8
        &&& forall|i: int| self.length <= i < 8 ==> self.data@[i] == 0
    }

    pub fn from_bytes(addr: u8, msg_type: u8, data: &[u8]) -> (raw: Self)
        requires
            data@.len() <= MAX_PAYLOAD,
        ensures
            raw@ == (WireRecord { addr, msg_type, payload: data@ }),
            raw@.wf(),
    {
        let n: usize = data.len();
        let mut buf: [u8; 8] = [0; 8];
        let mut i: usize = 0;
        while i < n
            invariant
                n == data@.len(),
                n <= 8,
                i <= n,
                forall|j: int| 0 <= j < i ==> buf@[j] == data@[j],
                forall|j: int| i <= j < 8 ==> buf@[j] == 0,
            decreases n - i,
        {
            buf[i] = data[i];
            i += 1;
        }
        let raw = Self { addr, msg_type, length: n as u8, data: buf };
        assert(raw@.payload =~= data@);
        raw
    }

    /// Rebuilds a record from an 11-bit bus address and the bytes received with it.
    pub fn from_can(can_addr: u16, data: &[u8]) -> (raw: Self)
        requires
            data@.len() <= MAX_PAYLOAD,
        ensures
            raw@ == (WireRecord {
                addr: can_device(can_addr),
                msg_type: can_msg_type(can_addr),
                payload: data@,
            }),
            raw@.fits_bus(),
            raw@.wf(),
    {
        let (addr, msg_type) = Self::split_can_addr(can_addr);
        Self::from_bytes(addr, msg_type, data)
    }

    /// Combines the type and the device address into an 11-bit bus address.
    pub fn to_can_addr(&self) -> (can_addr: u16)
        ensures
            can_addr == self@.can_addr(),
            can_addr < 2048,
    {
        let t: u16 = (self.msg_type % 32) as u16;
        let a: u16 = (self.addr % 64) as u16;
        t * 64 + a
    }

    /// Splits an 11-bit bus address into the device address and the message
    /// type. Bits above the eleventh are not looked at.
    pub fn split_can_addr(can_addr: u16) -> (parts: (u8, u8))
        ensures
            parts == can_parts(can_addr),
            parts.0 == can_device(can_addr),
            parts.1 == can_msg_type(can_addr),
            parts.0 <= 0x3F,
            parts.1 <= 0x1F,
    {
        let device_addr: u8 = (can_addr % 64) as u8;
        let msg_type: u8 = ((can_addr / 64) % 32) as u8;
        (device_addr, msg_type)
    }

    pub fn addr_type(&self) -> (parts: (u8, u8))
        ensures
            parts == (self@.addr, self@.msg_type),
    {
        (self.addr, self.msg_type)
    }

    pub fn length(&self) -> (n: u8)
        ensures
            n == self@.payload.len(),
            n <= MAX_PAYLOAD,
    {
        proof {
            use_type_invariant(self);
        }
        self.length
    }

    pub fn data_as_slice(&self) -> (bytes: &[u8])
        ensures
            bytes@ == self@.payload,
            bytes@.len() <= MAX_PAYLOAD,
    {
        proof {
            use_type_invariant(self);
        }
        slice_subrange(self.data.as_slice(), 0, self.length as usize)
    }
}

impl Message {
    /// The type code under which this message travels.
    pub open spec fn type_code(self) -> u8 {
        match self {
            Message::Error { .. } => msg_type::ERROR,
            Message::Info { .. } => msg_type::INFO,
            Message::OutputChanged { .. } => msg_type::OUTPUT_CHANGED,
            Message::StatusIO { .. } => msg_type::STATUS_IO,
            Message::InputChanged { .. } => msg_type::INPUT_CHANGED,
            Message::SetOutput { .. } => msg_type::SET_OUTPUT,
            Message::TriggerInput { .. } => msg_type::TRIGGER_INPUT,
            Message::ShutterCmd { .. } => msg_type::CALL_SHUTTER,
            Message::RequestStatus => msg_type::REQUEST_STATUS,
            Message::Ping { .. } => msg_type::PING,
            Message::Pong { .. } => msg_type::PONG,
            Message::Status { .. } => msg_type::STATUS,
            Message::TimeAnnouncement { .. } => msg_type::TIME_ANNOUNCEMENT,
            Message::CallProcedure { .. } => msg_type::CALL_PROC,
        }
    }

    /// The number of payload bytes that this message takes.
    pub open spec fn payload_len(self) -> nat {
        match self {
            Message::Error { .. } => 4,
            Message::Info { .. } => 6,
            Message::OutputChanged { .. } => 2,
            Message::StatusIO { .. } => 3,
            Message::InputChanged { .. } => 2,
            Message::SetOutput { .. } => 2,
            Message::TriggerInput { .. } => 2,
            Message::ShutterCmd { .. } => 7,
            Message::RequestStatus => 0,
            Message::Ping { .. } => 2,
            Message::Pong { .. } => 2,
            Message::Status { .. } => 8,
            Message::TimeAnnouncement { .. } => 8,
            Message::CallProcedure { .. } => 1,
        }
    }

    /// The payload bytes of this message: its fields in order, numbers of
    /// more than one byte with the lowest byte first.
    pub open spec fn payload(self) -> Seq<u8> {
        match self {
            Message::Error { code } => le32_bytes(code),
            Message::Info { code, arg } => le16_bytes(code) + le32_bytes(arg),
            Message::OutputChanged { output, state } => seq![output, state.code()],
            Message::StatusIO { io, state } => seq![io.index(), io.kind_code(), state.code()],
            Message::InputChanged { input, trigger } => seq![input, trigger.code()],
            Message::SetOutput { output, state } => seq![output, state.code()],
            Message::TriggerInput { input, trigger } => seq![input, trigger.code()],
            Message::ShutterCmd { shutter_idx, cmd } => seq![shutter_idx] + cmd.bytes() + seq![0u8],
            Message::RequestStatus => Seq::empty(),
            Message::Ping { body } => le16_bytes(body),
            Message::Pong { body } => le16_bytes(body),
            Message::Status { uptime, errors, warnings } => le32_bytes(uptime) + le16_bytes(errors)
                + le16_bytes(warnings),
            Message::TimeAnnouncement { year, month, day, hour, minute, second, day_of_week } => {
                le16_bytes(year) + seq![month, day, hour, minute, second, day_of_week]
            },
            Message::CallProcedure { proc_id } => seq![proc_id],
        }
    }

    /// The record that carries this message to or from the device `addr`.
    pub open spec fn encoded(self, addr: u8) -> WireRecord {
        WireRecord { addr, msg_type: self.type_code(), payload: self.payload() }
    }

    /// The payload length that a type code calls for, if the code is that of
    /// a message.
    pub open spec fn required_length(msg_type: u8) -> Option<nat> {
        if msg_type == msg_type::ERROR {
            Some(4)
        } else if msg_type == msg_type::INFO {
            Some(6)
        } else if msg_type == msg_type::OUTPUT_CHANGED || msg_type == msg_type::INPUT_CHANGED
            || msg_type == msg_type::SET_OUTPUT || msg_type == msg_type::TRIGGER_INPUT || msg_type
            == msg_type::PING || msg_type == msg_type::PONG {
            Some(2)
        } else if msg_type == msg_type::CALL_PROC {
            Some(1)
        } else if msg_type == msg_type::REQUEST_STATUS {
            Some(0)
        } else if msg_type == msg_type::STATUS_IO {
            Some(3)
        } else if msg_type == msg_type::CALL_SHUTTER {
            Some(7)
        } else if msg_type == msg_type::STATUS || msg_type == msg_type::TIME_ANNOUNCEMENT {
            Some(8)
        } else {
            None
        }
    }

    /// The message that a payload of the right length stands for under the
    /// type code of a message, or the reason why it stands for none.
    pub open spec fn read_fields(msg_type: u8, p: Seq<u8>) -> Result<Message, DecodeError> {
        if msg_type == msg_type::ERROR {
            Ok(Message::Error { code: le32(p[0], p[1], p[2], p[3]) })
        } else if msg_type == msg_type::INFO {
            Ok(Message::Info { code: le16(p[0], p[1]), arg: le32(p[2], p[3], p[4], p[5]) })
        } else if msg_type == msg_type::OUTPUT_CHANGED {
            match args::OutputChangeRequest::of_code(p[1]) {
                Some(state) => Ok(Message::OutputChanged { output: p[0], state }),
                None => Err(DecodeError::InvalidEnumValue),
            }
        } else if msg_type == msg_type::SET_OUTPUT {
            match args::OutputChangeRequest::of_code(p[1]) {
                Some(state) => Ok(Message::SetOutput { output: p[0], state }),
                None => Err(DecodeError::InvalidEnumValue),
            }
        } else if msg_type == msg_type::INPUT_CHANGED {
            match args::Trigger::of_code(p[1]) {
                Some(trigger) => Ok(Message::InputChanged { input: p[0], trigger }),
                None => Err(DecodeError::InvalidEnumValue),
            }
        } else if msg_type == msg_type::TRIGGER_INPUT {
            match args::Trigger::of_code(p[1]) {
                Some(trigger) => Ok(Message::TriggerInput { input: p[0], trigger }),
                None => Err(DecodeError::InvalidEnumValue),
            }
        } else if msg_type == msg_type::CALL_PROC {
            Ok(Message::CallProcedure { proc_id: p[0] })
        } else if msg_type == msg_type::CALL_SHUTTER {
            match shutters::Cmd::of_bytes(p.subrange(1, 6)) {
                Some(cmd) => Ok(Message::ShutterCmd { shutter_idx: p[0], cmd }),
                None => Err(DecodeError::InvalidEnumValue),
            }
        } else if msg_type == msg_type::REQUEST_STATUS {
            Ok(Message::RequestStatus)
        } else if msg_type == msg_type::PING {
            Ok(Message::Ping { body: le16(p[0], p[1]) })
        } else if msg_type == msg_type::PONG {
            Ok(Message::Pong { body: le16(p[0], p[1]) })
        } else if msg_type == msg_type::STATUS_IO {
            match (args::IOType::of_code(p[1], p[0]), args::IOState::of_code(p[2])) {
                (Some(io), Some(state)) => Ok(Message::StatusIO { io, state }),
                _ => Err(DecodeError::InvalidEnumValue),
            }
        } else if msg_type == msg_type::STATUS {
            Ok(
                Message::Status {
                    uptime: le32(p[0], p[1], p[2], p[3]),
                    errors: le16(p[4], p[5]),
                    warnings: le16(p[6], p[7]),
                },
            )
        } else {
            Ok(
                Message::TimeAnnouncement {
                    year: le16(p[0], p[1]),
                    month: p[2],
                    day: p[3],
                    hour: p[4],
                    minute: p[5],
                    second: p[6],
                    day_of_week: p[7],
                },
            )
        }
    }

    /// The message that a record stands for, or the reason why it stands for
    /// none: a type code of no message, a payload of the wrong length for its
    /// type, or a byte that names no value.
    pub open spec fn decoded(w: WireRecord) -> Result<Message, DecodeError> {
        match Self::required_length(w.msg_type) {
            None => Err(DecodeError::UnknownType),
            Some(n) => if w.payload.len() != n {
                Err(DecodeError::LengthMismatch)
            } else {
                Self::read_fields(w.msg_type, w.payload)
            },
        }
    }

    /// Reads the message that a record stands for. Nothing is returned of a
    /// record that cannot be read in full.
    pub fn from_raw(raw: &MessageRaw) -> (r: Result<Self, DecodeError>)
        ensures
            r == Self::decoded(raw@),
    {
        proof {
            use_type_invariant(raw);
        }
        let t: u8 = raw.msg_type;
        let len: u8 = raw.length;
        let d: &[u8; 8] = &raw.data;
        if t == msg_type::SET_OUTPUT {
            if len != 2 {
                return Err(DecodeError::LengthMismatch);
            }
            match args::OutputChangeRequest::from_u8(d[1]) {
                Some(state) => Ok(Message::SetOutput { output: d[0], state }),
                None => Err(DecodeError::InvalidEnumValue),
            }
        } else if t == msg_type::TRIGGER_INPUT {
            if len != 2 {
                return Err(DecodeError::LengthMismatch);
            }
            match args::Trigger::from_u8(d[1]) {
                Some(trigger) => Ok(Message::TriggerInput { input: d[0], trigger }),
                None => Err(DecodeError::InvalidEnumValue),
            }
        } else if t == msg_type::CALL_PROC {
            if len != 1 {
                return Err(DecodeError::LengthMismatch);
            }
            Ok(Message::CallProcedure { proc_id: d[0] })
        } else if t == msg_type::CALL_SHUTTER {
            if len != 7 {
                return Err(DecodeError::LengthMismatch);
            }
            let bytes: [u8; 5] = [d[1], d[2], d[3], d[4], d[5]];
            assert(bytes@ =~= raw@.payload.subrange(1, 6));
            match shutters::Cmd::from_raw(&bytes) {
                Some(cmd) => Ok(Message::ShutterCmd { shutter_idx: d[0], cmd }),
                None => Err(DecodeError::InvalidEnumValue),
            }
        } else if t == msg_type::TIME_ANNOUNCEMENT {
            if len != 8 {
                return Err(DecodeError::LengthMismatch);
            }
            Ok(
                Message::TimeAnnouncement {
                    year: u16_from_le(d[0], d[1]),
                    month: d[2],
                    day: d[3],
                    hour: d[4],
                    minute: d[5],
                    second: d[6],
                    day_of_week: d[7],
                },
            )
        } else if t == msg_type::REQUEST_STATUS {
            if len != 0 {
                return Err(DecodeError::LengthMismatch);
            }
            Ok(Message::RequestStatus)
        } else if t == msg_type::PING {
            if len != 2 {
                return Err(DecodeError::LengthMismatch);
            }
            Ok(Message::Ping { body: u16_from_le(d[0], d[1]) })
        } else if t == msg_type::PONG {
            if len != 2 {
                return Err(DecodeError::LengthMismatch);
            }
            Ok(Message::Pong { body: u16_from_le(d[0], d[1]) })
        } else if t == msg_type::INFO {
            if len != 6 {
                return Err(DecodeError::LengthMismatch);
            }
            Ok(
                Message::Info {
                    code: u16_from_le(d[0], d[1]),
                    arg: u32_from_le(d[2], d[3], d[4], d[5]),
                },
            )
        } else if t == msg_type::ERROR {
            if len != 4 {
                return Err(DecodeError::LengthMismatch);
            }
            Ok(Message::Error { code: u32_from_le(d[0], d[1], d[2], d[3]) })
        } else if t == msg_type::OUTPUT_CHANGED {
            if len != 2 {
                return Err(DecodeError::LengthMismatch);
            }
            match args::OutputChangeRequest::from_u8(d[1]) {
                Some(state) => Ok(Message::OutputChanged { output: d[0], state }),
                None => Err(DecodeError::InvalidEnumValue),
            }
        } else if t == msg_type::INPUT_CHANGED {
            if len != 2 {
                return Err(DecodeError::LengthMismatch);
            }
            match args::Trigger::from_u8(d[1]) {
                Some(trigger) => Ok(Message::InputChanged { input: d[0], trigger }),
                None => Err(DecodeError::InvalidEnumValue),
            }
        } else if t == msg_type::STATUS_IO {
            if len != 3 {
                return Err(DecodeError::LengthMismatch);
            }
            let idx: u8 = d[0];
            let state = match args::IOState::from_u8(d[2]) {
                Some(state) => state,
                None => {
                    return Err(DecodeError::InvalidEnumValue);
                },
            };
            let io = if d[1] == 0 {
                args::IOType::Input(idx)
            } else if d[1] == 1 {
                args::IOType::Output(idx)
            } else {
                return Err(DecodeError::InvalidEnumValue);
            };
            Ok(Message::StatusIO { io, state })
        } else if t == msg_type::STATUS {
            if len != 8 {
                return Err(DecodeError::LengthMismatch);
            }
            Ok(
                Message::Status {
                    uptime: u32_from_le(d[0], d[1], d[2], d[3]),
                    errors: u16_from_le(d[4], d[5]),
                    warnings: u16_from_le(d[6], d[7]),
                },
            )
        } else {
            Err(DecodeError::UnknownType)
        }
    }

    /// Writes this message as a record to or from the device `addr`.
    pub fn to_raw(&self, addr: u8) -> (raw: MessageRaw)
        ensures
            raw@ == self.encoded(addr),
            raw@.payload.len() == self.payload_len(),
            raw@.wf(),
    {
        let mut data: [u8; 8] = [0; 8];
        let code: u8;
        let length: u8;
        match self {
            Message::Error { code: error } => {
                code = msg_type::ERROR;
                length = 4;
                let b = u32_to_le(*error);
                data[0] = b[0];
                data[1] = b[1];
                data[2] = b[2];
                data[3] = b[3];
            },
            Message::Info { code: info, arg } => {
                code = msg_type::INFO;
                length = 6;
                let b = u16_to_le(*info);
                let c = u32_to_le(*arg);
                data[0] = b[0];
                data[1] = b[1];
                data[2] = c[0];
                data[3] = c[1];
                data[4] = c[2];
                data[5] = c[3];
            },
            Message::SetOutput { output, state } => {
                code = msg_type::SET_OUTPUT;
                length = 2;
                data[0] = *output;
                data[1] = state.to_bytes();
            },
            Message::OutputChanged { output, state } => {
                code = msg_type::OUTPUT_CHANGED;
                length = 2;
                data[0] = *output;
                data[1] = state.to_bytes();
            },
            Message::StatusIO { io, state } => {
                code = msg_type::STATUS_IO;
                length = 3;
                match io {
                    args::IOType::Input(idx) => {
                        data[0] = *idx;
                        data[1] = 0;
                    },
                    args::IOType::Output(idx) => {
                        data[0] = *idx;
                        data[1] = 1;
                    },
                }
                data[2] = state.to_bytes();
            },
            Message::InputChanged { input, trigger } => {
                code = msg_type::INPUT_CHANGED;
                length = 2;
                data[0] = *input;
                data[1] = trigger.to_bytes();
            },
            Message::CallProcedure { proc_id } => {
                code = msg_type::CALL_PROC;
                length = 1;
                data[0] = *proc_id;
            },
            Message::ShutterCmd { shutter_idx, cmd } => {
                code = msg_type::CALL_SHUTTER;
                length = 7;
                let b = cmd.to_bytes();
                data[0] = *shutter_idx;
                data[1] = b[0];
                data[2] = b[1];
                data[3] = b[2];
                data[4] = b[3];
                data[5] = b[4];
            },
            Message::Status { uptime, errors, warnings } => {
                code = msg_type::STATUS;
                length = 8;
                let b = u32_to_le(*uptime);
                let c = u16_to_le(*errors);
                let e = u16_to_le(*warnings);
                data[0] = b[0];
                data[1] = b[1];
                data[2] = b[2];
                data[3] = b[3];
                data[4] = c[0];
                data[5] = c[1];
                data[6] = e[0];
                data[7] = e[1];
            },
            Message::TimeAnnouncement { year, month, day, hour, minute, second, day_of_week } => {
                code = msg_type::TIME_ANNOUNCEMENT;
                length = 8;
                let b = u16_to_le(*year);
                data[0] = b[0];
                data[1] = b[1];
                data[2] = *month;
                data[3] = *day;
                data[4] = *hour;
                data[5] = *minute;
                data[6] = *second;
                data[7] = *day_of_week;
            },
            Message::Ping { body } => {
                code = msg_type::PING;
                length = 2;
                let b = u16_to_le(*body);
                data[0] = b[0];
                data[1] = b[1];
            },
            Message::Pong { body } => {
                code = msg_type::PONG;
                length = 2;
                let b = u16_to_le(*body);
                data[0] = b[0];
                data[1] = b[1];
            },
            Message::TriggerInput { input, trigger } => {
                code = msg_type::TRIGGER_INPUT;
                length = 2;
                data[0] = *input;
                data[1] = trigger.to_bytes();
            },
            Message::RequestStatus => {
                code = msg_type::REQUEST_STATUS;
                length = 0;
            },
        }
        let raw = MessageRaw { addr, msg_type: code, length, data };
        assert(raw@.payload =~= self.payload());
        raw
    }
}


} // verus!
