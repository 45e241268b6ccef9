//! What holds of the codec for every message and every record.

use vstd::prelude::*;

use crate::message::args::{IOState, IOType, OutputChangeRequest, Trigger};
use crate::message::endian::{
    lemma_bytes_of_le16, lemma_bytes_of_le32, lemma_le16_of_bytes, lemma_le32_of_bytes,
};
use crate::message::{can_device, can_msg_type, can_parts, DecodeError, Message, WireRecord};
use crate::shutters::Cmd;

verus! {

/// A message written as a record and read again is the same message, field
/// for field, and the record's payload has the length that the message's
/// variant calls for.
pub proof fn lemma_round_trip(m: Message, addr: u8)
    ensures
        Message::decoded(m.encoded(addr)) == Ok::<Message, DecodeError>(m),
        m.encoded(addr).payload.len() == m.payload_len(),
        m.encoded(addr).addr == addr,
{
    match m {
        Message::Error { code } => {
            lemma_le32_of_bytes(code);
        },
        Message::Info { code, arg } => {
            lemma_le16_of_bytes(code);
            lemma_le32_of_bytes(arg);
        },
        Message::OutputChanged { output, state } => {
            OutputChangeRequest::lemma_code_inverse(state, 0);
        },
        Message::StatusIO { io, state } => {
            IOState::lemma_code_inverse(state, 0);
        },
        Message::InputChanged { input, trigger } => {
            Trigger::lemma_code_inverse(trigger, 0);
        },
        Message::SetOutput { output, state } => {
            OutputChangeRequest::lemma_code_inverse(state, 0);
        },
        Message::TriggerInput { input, trigger } => {
            Trigger::lemma_code_inverse(trigger, 0);
        },
        Message::ShutterCmd { shutter_idx, cmd } => {
            Cmd::lemma_read_back(cmd);
            assert(m.payload().subrange(1, 6) =~= cmd.bytes());
        },
        Message::RequestStatus => {},
        Message::Ping { body } => {
            lemma_le16_of_bytes(body);
        },
        Message::Pong { body } => {
            lemma_le16_of_bytes(body);
        },
        Message::Status { uptime, errors, warnings } => {
            lemma_le32_of_bytes(uptime);
            lemma_le16_of_bytes(errors);
            lemma_le16_of_bytes(warnings);
        },
        Message::TimeAnnouncement { year, .. } => {
            lemma_le16_of_bytes(year);
        },
        Message::CallProcedure { .. } => {},
    }
}

/// Every message is written under a type code of five bits, with a payload
/// that a record can hold.
pub proof fn lemma_encoded_fits(m: Message, addr: u8)
    ensures
        m.encoded(addr).wf(),
        m.encoded(addr).msg_type <= 0x1F,
        m.encoded(addr).fits_bus() <==> addr <= 0x3F,
{
    if let Message::ShutterCmd { cmd, .. } = m {
        Cmd::lemma_read_back(cmd);
    }
}

/// Splitting the bus address of a record gives back the pair of its device
/// address and its type, in that order, when each fits its bits.
pub proof fn lemma_can_addr_round_trip(w: WireRecord)
    requires
        w.addr <= 63,
        w.msg_type <= 31,
    ensures
        can_parts(w.can_addr()) == (w.addr, w.msg_type),
{
}

/// Whatever the two bytes hold, splitting the bus address gives back their
/// low six and low five bits.
pub proof fn lemma_can_addr_keeps_low_bits(w: WireRecord)
    ensures
        w.can_addr() < 2048,
        can_parts(w.can_addr()) == ((w.addr % 64) as u8, (w.msg_type % 32) as u8),
{
}

/// Bits above the eleventh of a bus address count for nothing.
pub proof fn lemma_split_ignores_high_bits(can_addr: u16)
    ensures
        can_parts(can_addr) == can_parts((can_addr % 2048) as u16),
        can_parts(can_addr).0 <= 0x3F,
        can_parts(can_addr).1 <= 0x1F,
{
}

/// The bus address, said with shifts and masks: the type, masked to five
/// bits, shifted left by six, or-ed with the device address, masked to six bits.
pub proof fn lemma_can_addr_bits(w: WireRecord)
    ensures
        w.can_addr() == ((w.msg_type as u16 & 0x1F) << 6) | (w.addr as u16 & 0x3F),
{
    let t: u16 = w.msg_type as u16;
    let a: u16 = w.addr as u16;
    assert(((t & 0x1F) << 6) | (a & 0x3F) == 64 * (t % 32) + a % 64) by (bit_vector)
        requires
            t < 256,
            a < 256,
    ;
}

/// The parts of a bus address, said with shifts and masks.
pub proof fn lemma_split_bits(can_addr: u16)
    ensures
        can_device(can_addr) == can_addr & 0x3F,
        can_msg_type(can_addr) == (can_addr >> 6) & 0x1F,
{
    assert(can_addr & 0x3F == can_addr % 64) by (bit_vector);
    assert((can_addr >> 6) & 0x1F == (can_addr / 64) % 32) by (bit_vector);
}

/// A record under the type code of a message, with a payload of any other
/// length than that message's, is refused for its length.
pub proof fn lemma_length_mismatch(m: Message, w: WireRecord)
    requires
        w.msg_type == m.type_code(),
        w.payload.len() != m.payload_len(),
    ensures
        Message::decoded(w) == Err::<Message, DecodeError>(DecodeError::LengthMismatch),
{
}

/// The length called for on reading a message is the length with which it
/// is written.
pub proof fn lemma_required_length(m: Message)
    ensures
        Message::required_length(m.type_code()) == Some(m.payload_len()),
{
}

/// The type codes of the messages, one by one: a length is called for
/// exactly under these, and each is the code of some message.
pub proof fn lemma_type_codes(msg_type: u8)
    ensures
        Message::required_length(msg_type) is Some <==> (msg_type == 0x02 || msg_type == 0x04
            || msg_type == 0x05 || msg_type == 0x08 || msg_type == 0x09 || msg_type == 0x0A
            || msg_type == 0x0B || msg_type == 0x0D || msg_type == 0x0E || msg_type == 0x10
            || msg_type == 0x11 || msg_type == 0x12 || msg_type == 0x1D || msg_type == 0x1E),
        Message::required_length(msg_type) is Some <==> exists|m: Message| #[trigger]
            m.type_code() == msg_type,
{
    if Message::required_length(msg_type) is Some {
        let m = example_of(msg_type);
        assert(m.type_code() == msg_type);
    }
}

/// A message that travels under a given type code, if any does.
pub open spec fn example_of(msg_type: u8) -> Message {
    if msg_type == 0x02 {
        Message::Error { code: 0 }
    } else if msg_type == 0x04 {
        Message::OutputChanged { output: 0, state: OutputChangeRequest::Off }
    } else if msg_type == 0x05 {
        Message::InputChanged { input: 0, trigger: Trigger::ShortClick }
    } else if msg_type == 0x08 {
        Message::SetOutput { output: 0, state: OutputChangeRequest::Off }
    } else if msg_type == 0x09 {
        Message::TriggerInput { input: 0, trigger: Trigger::ShortClick }
    } else if msg_type == 0x0A {
        Message::CallProcedure { proc_id: 0 }
    } else if msg_type == 0x0B {
        Message::ShutterCmd { shutter_idx: 0, cmd: Cmd::Open }
    } else if msg_type == 0x0D {
        Message::RequestStatus
    } else if msg_type == 0x0E {
        Message::StatusIO { io: IOType::Input(0), state: IOState::Off }
    } else if msg_type == 0x10 {
        Message::Status { uptime: 0, errors: 0, warnings: 0 }
    } else if msg_type == 0x11 {
        Message::TimeAnnouncement {
            year: 0,
            month: 0,
            day: 0,
            hour: 0,
            minute: 0,
            second: 0,
            day_of_week: 0,
        }
    } else if msg_type == 0x12 {
        Message::Info { code: 0, arg: 0 }
    } else if msg_type == 0x1D {
        Message::Pong { body: 0 }
    } else {
        Message::Ping { body: 0 }
    }
}

/// A record whose type code is that of no message is refused for its type,
/// whatever its payload; no other record is.
pub proof fn lemma_unknown_type(w: WireRecord)
    ensures
        Message::required_length(w.msg_type) is None <==> Message::decoded(w) == Err::<
            Message,
            DecodeError,
        >(DecodeError::UnknownType),
{
}

/// When the other errors come: the type is that of a message and the length
/// is wrong; or both are right and a byte names no value.
pub proof fn lemma_decode_errors(w: WireRecord)
    ensures
        Message::decoded(w) == Err::<Message, DecodeError>(DecodeError::LengthMismatch) <==> (
        Message::required_length(w.msg_type) matches Some(n) && w.payload.len() != n),
        Message::decoded(w) == Err::<Message, DecodeError>(DecodeError::InvalidEnumValue) <==> (
        Message::required_length(w.msg_type) == Some(w.payload.len()) && {
            ||| (w.msg_type == 0x04 || w.msg_type == 0x08) && w.payload[1] > 2
            ||| (w.msg_type == 0x05 || w.msg_type == 0x09) && w.payload[1] > 5
            ||| w.msg_type == 0x0E && (w.payload[1] > 1 || w.payload[2] > 3)
            ||| w.msg_type == 0x0B && !(1 <= w.payload[1] <= 8 || w.payload[1] == 0x10)
        }),
{
    if w.msg_type == 0x0B && w.payload.len() == 7 {
        assert(w.payload.subrange(1, 6)[0] == w.payload[1]);
    }
}

/// A record that is read stands for exactly one message, and that message is
/// written as that record: no two records read as one message under one
/// address. Shutter commands are left out: in their records some bytes go
/// unread.
pub proof fn lemma_read_is_canonical(w: WireRecord)
    requires
        Message::decoded(w) is Ok,
        w.msg_type != 0x0B,
    ensures
        Message::decoded(w)->Ok_0.encoded(w.addr) == w,
{
    let m = Message::decoded(w)->Ok_0;
    let p = w.payload;
    if p.len() >= 2 {
        lemma_bytes_of_le16(p[0], p[1]);
    }
    if p.len() >= 4 {
        lemma_bytes_of_le32(p[0], p[1], p[2], p[3]);
    }
    if p.len() >= 6 {
        lemma_bytes_of_le32(p[2], p[3], p[4], p[5]);
    }
    if p.len() >= 8 {
        lemma_bytes_of_le16(p[4], p[5]);
        lemma_bytes_of_le16(p[6], p[7]);
    }
    assert(m.payload() =~= p);
}

} // verus!
