use io_gate::consts::Trigger;
use io_gate::message::args::{IOState, IOType, InfoCode, OutputChangeRequest};
use io_gate::message::endian::{u16_from_le, u16_to_le, u32_from_le, u32_to_le};
use io_gate::message::{msg_type, DecodeError, Message, MessageRaw, BROADCAST_ADDRESS};
use io_gate::shutters::{Cmd, TargetPosition};

fn samples() -> Vec<(Message, u8, Vec<u8>)> {
    vec![
        (Message::Error { code: 0x0403_0201 }, 0x02, vec![1, 2, 3, 4]),
        (Message::Info { code: 0x000A, arg: 0xDEAD_BEEF }, 0x12, vec![0x0A, 0x00, 0xEF, 0xBE, 0xAD, 0xDE]),
        (
            Message::OutputChanged { output: 7, state: OutputChangeRequest::Toggle },
            0x04,
            vec![7, 2],
        ),
        (
            Message::StatusIO { io: IOType::Input(9), state: IOState::Unknown },
            0x0E,
            vec![9, 0, 3],
        ),
        (
            Message::StatusIO { io: IOType::Output(4), state: IOState::Error },
            0x0E,
            vec![4, 1, 2],
        ),
        (
            Message::InputChanged { input: 3, trigger: Trigger::LongDeactivated },
            0x05,
            vec![3, 5],
        ),
        (Message::SetOutput { output: 5, state: OutputChangeRequest::On }, 0x08, vec![5, 1]),
        (
            Message::TriggerInput { input: 200, trigger: Trigger::Activated },
            0x09,
            vec![200, 2],
        ),
        (Message::RequestStatus, 0x0D, vec![]),
        (Message::Ping { body: 0xBEEF }, 0x1E, vec![0xEF, 0xBE]),
        (Message::Pong { body: 0x0102 }, 0x1D, vec![0x02, 0x01]),
        (
            Message::Status { uptime: 0x0102_0304, errors: 0x0506, warnings: 0x0708 },
            0x10,
            vec![4, 3, 2, 1, 6, 5, 8, 7],
        ),
        (
            Message::TimeAnnouncement {
                year: 2024,
                month: 3,
                day: 1,
                hour: 10,
                minute: 15,
                second: 30,
                day_of_week: 5,
            },
            0x11,
            vec![0xE8, 0x07, 3, 1, 10, 15, 30, 5],
        ),
        (Message::CallProcedure { proc_id: 42 }, 0x0A, vec![42]),
        (
            Message::ShutterCmd { shutter_idx: 3, cmd: Cmd::Go(TargetPosition::new(40, 60)) },
            0x0B,
            vec![3, 0x01, 40, 60, 0, 0, 0],
        ),
        (
            Message::ShutterCmd { shutter_idx: 4, cmd: Cmd::TiltClose },
            0x0B,
            vec![4, 0x05, 0, 0, 0, 0, 0],
        ),
        (
            Message::ShutterCmd { shutter_idx: 255, cmd: Cmd::SetIO(7, 8) },
            0x0B,
            vec![255, 0x10, 7, 8, 0, 0, 0],
        ),
    ]
}

#[test]
fn every_variant_has_its_layout() {
    for (msg, code, payload) in samples() {
        let raw = msg.to_raw(17);
        assert_eq!(raw.addr_type(), (17, code), "{:?}", msg);
        assert_eq!(raw.length() as usize, payload.len(), "{:?}", msg);
        assert_eq!(raw.data_as_slice(), &payload[..], "{:?}", msg);
    }
}

#[test]
fn every_variant_is_read_back() {
    for (msg, _, _) in samples() {
        for addr in [0u8, 1, 17, 62, BROADCAST_ADDRESS] {
            let raw = msg.to_raw(addr);
            assert_eq!(raw.addr_type().0, addr);
            assert_eq!(Message::from_raw(&raw), Ok(msg));
        }
    }
}

#[test]
fn every_enumerated_field_is_read_back() {
    for state in [OutputChangeRequest::Off, OutputChangeRequest::On, OutputChangeRequest::Toggle] {
        for output in [0u8, 1, 255] {
            let a = Message::SetOutput { output, state };
            assert_eq!(Message::from_raw(&a.to_raw(1)), Ok(a));
            let b = Message::OutputChanged { output, state };
            assert_eq!(Message::from_raw(&b.to_raw(1)), Ok(b));
        }
    }
    for trigger in [
        Trigger::ShortClick,
        Trigger::LongClick,
        Trigger::Activated,
        Trigger::Deactivated,
        Trigger::LongActivated,
        Trigger::LongDeactivated,
    ] {
        let a = Message::InputChanged { input: 8, trigger };
        assert_eq!(Message::from_raw(&a.to_raw(1)), Ok(a));
        let b = Message::TriggerInput { input: 8, trigger };
        assert_eq!(Message::from_raw(&b.to_raw(1)), Ok(b));
    }
    for state in [IOState::Off, IOState::On, IOState::Error, IOState::Unknown] {
        for io in [IOType::Input(6), IOType::Output(6)] {
            let a = Message::StatusIO { io, state };
            assert_eq!(Message::from_raw(&a.to_raw(1)), Ok(a));
        }
    }
}

#[test]
fn extreme_numbers_are_read_back() {
    for code in [0u32, 1, 255, 256, 65535, 65536, 0x00FF_FFFF, 0x0100_0000, u32::MAX] {
        let m = Message::Error { code };
        assert_eq!(Message::from_raw(&m.to_raw(3)), Ok(m));
        let s = Message::Status { uptime: code, errors: u16::MAX, warnings: 0 };
        assert_eq!(Message::from_raw(&s.to_raw(3)), Ok(s));
    }
    for body in [0u16, 1, 255, 256, 0x7FFF, u16::MAX] {
        let m = Message::Ping { body };
        assert_eq!(Message::from_raw(&m.to_raw(3)), Ok(m));
        let i = Message::Info { code: body, arg: u32::MAX };
        assert_eq!(Message::from_raw(&i.to_raw(3)), Ok(i));
    }
}

#[test]
fn info_argument_is_read() {
    let raw = MessageRaw::from_bytes(4, msg_type::INFO, &[10, 0, 1, 2, 3, 4]);
    assert_eq!(Message::from_raw(&raw), Ok(Message::Info { code: 10, arg: 0x0403_0201 }));
}

#[test]
fn wrong_length_is_refused_for_every_type_read() {
    let known: [(u8, usize); 14] = [
        (0x02, 4),
        (0x04, 2),
        (0x05, 2),
        (0x08, 2),
        (0x09, 2),
        (0x0A, 1),
        (0x0B, 7),
        (0x0D, 0),
        (0x0E, 3),
        (0x10, 8),
        (0x11, 8),
        (0x12, 6),
        (0x1D, 2),
        (0x1E, 2),
    ];
    for (code, required) in known {
        for len in 0..=8usize {
            // All ones: a valid trigger, request and state, and a shutter command.
            let data = vec![1u8; len];
            let raw = MessageRaw::from_bytes(1, code, &data);
            let r = Message::from_raw(&raw);
            if len == required {
                assert!(r.is_ok(), "type {:#x} length {}", code, len);
            } else {
                assert_eq!(r, Err(DecodeError::LengthMismatch), "type {:#x} length {}", code, len);
            }
        }
    }
}

#[test]
fn unknown_types_are_refused() {
    let known =
        [0x02u8, 0x04, 0x05, 0x08, 0x09, 0x0A, 0x0B, 0x0D, 0x0E, 0x10, 0x11, 0x12, 0x1D, 0x1E];
    for code in 0..=255u8 {
        if known.contains(&code) {
            continue;
        }
        for len in 0..=8usize {
            let data = vec![0u8; len];
            let raw = MessageRaw::from_bytes(1, code, &data);
            assert_eq!(Message::from_raw(&raw), Err(DecodeError::UnknownType), "type {:#x}", code);
        }
    }
}

#[test]
fn bytes_that_name_no_value_are_refused() {
    for code in [msg_type::SET_OUTPUT, msg_type::OUTPUT_CHANGED] {
        for b in 3..=255u8 {
            let raw = MessageRaw::from_bytes(1, code, &[0, b]);
            assert_eq!(Message::from_raw(&raw), Err(DecodeError::InvalidEnumValue));
        }
    }
    for code in [msg_type::INPUT_CHANGED, msg_type::TRIGGER_INPUT] {
        for b in 6..=255u8 {
            let raw = MessageRaw::from_bytes(1, code, &[0, b]);
            assert_eq!(Message::from_raw(&raw), Err(DecodeError::InvalidEnumValue));
        }
    }
    let raw = MessageRaw::from_bytes(1, msg_type::STATUS_IO, &[0, 2, 0]);
    assert_eq!(Message::from_raw(&raw), Err(DecodeError::InvalidEnumValue));
    let raw = MessageRaw::from_bytes(1, msg_type::STATUS_IO, &[0, 1, 4]);
    assert_eq!(Message::from_raw(&raw), Err(DecodeError::InvalidEnumValue));
    let raw = MessageRaw::from_bytes(1, msg_type::STATUS_IO, &[0, 9, 9]);
    assert_eq!(Message::from_raw(&raw), Err(DecodeError::InvalidEnumValue));
}

#[test]
fn every_shutter_command_is_read_back() {
    let commands = [
        Cmd::Go(TargetPosition::new(0, 100)),
        Cmd::Open,
        Cmd::Close,
        Cmd::Tilt(55),
        Cmd::TiltClose,
        Cmd::TiltOpen,
        Cmd::TiltHalf,
        Cmd::TiltReverse,
        Cmd::SetIO(1, 2),
    ];
    for cmd in commands {
        let msg = Message::ShutterCmd { shutter_idx: 6, cmd };
        let raw = msg.to_raw(9);
        assert_eq!(raw.addr_type(), (9, 0x0B));
        assert_eq!(raw.length(), 7);
        assert_eq!(Message::from_raw(&raw), Ok(msg));
    }
}

#[test]
fn shutter_command_of_no_known_code_is_refused() {
    for code in [0u8, 9, 0x0F, 0x11, 0xFF] {
        let raw = MessageRaw::from_bytes(1, msg_type::CALL_SHUTTER, &[3, code, 0, 0, 0, 0, 0]);
        assert_eq!(Message::from_raw(&raw), Err(DecodeError::InvalidEnumValue));
    }
    // What lies behind the arguments of a command goes unread.
    let raw = MessageRaw::from_bytes(1, msg_type::CALL_SHUTTER, &[3, 0x02, 9, 9, 9, 9, 9]);
    assert_eq!(Message::from_raw(&raw), Ok(Message::ShutterCmd { shutter_idx: 3, cmd: Cmd::Open }));
}

#[test]
fn bus_address_splits_back_for_all_devices_and_types() {
    for addr in 0..=63u8 {
        for code in 0..=31u8 {
            let raw = MessageRaw::from_bytes(addr, code, &[]);
            let can = raw.to_can_addr();
            assert_eq!(can, ((code as u16) << 6) | addr as u16);
            assert!(can < 2048);
            assert_eq!(MessageRaw::split_can_addr(can), (addr, code));
        }
    }
}

#[test]
fn bus_address_keeps_the_low_bits_only() {
    let raw = MessageRaw::from_bytes(0xFF, 0xFF, &[]);
    assert_eq!(raw.to_can_addr(), 0x7FF);
    let raw = MessageRaw::from_bytes(0x40, 0x20, &[]);
    assert_eq!(raw.to_can_addr(), 0);
    assert_eq!(MessageRaw::split_can_addr(0xFFFF), (63, 31));
    assert_eq!(MessageRaw::split_can_addr(0x0800), (0, 0));
    assert_eq!(MessageRaw::split_can_addr(0x047F), (63, 17));
    assert_eq!(MessageRaw::split_can_addr(0xFC7F), (63, 17));
    assert_eq!(MessageRaw::split_can_addr(0x0040), (0, 1));
    assert_eq!(MessageRaw::split_can_addr(0x0001), (1, 0));
    for can in 0..=u16::MAX {
        let (addr, code) = MessageRaw::split_can_addr(can);
        assert_eq!(addr as u16, can & 0x3F);
        assert_eq!(code as u16, (can >> 6) & 0x1F);
    }
}

#[test]
fn record_from_bus_address() {
    let can = (0x08u16 << 6) | 2;
    let raw = MessageRaw::from_can(can, &[5, 1]);
    assert_eq!(raw.addr_type(), (2, 0x08));
    assert_eq!(raw.length(), 2);
    assert_eq!(raw.data_as_slice(), &[5u8, 1][..]);
    assert_eq!(
        Message::from_raw(&raw),
        Ok(Message::SetOutput { output: 5, state: OutputChangeRequest::On })
    );
}

#[test]
fn record_from_bytes_keeps_what_it_is_given() {
    for len in 0..=8usize {
        let data: Vec<u8> = (0..len as u8).map(|b| 0xA0 + b).collect();
        let raw = MessageRaw::from_bytes(0xC8, 0x99, &data);
        assert_eq!(raw.addr_type(), (0xC8, 0x99));
        assert_eq!(raw.length() as usize, len);
        assert_eq!(raw.data_as_slice(), &data[..]);
    }
}

#[test]
fn default_record_is_empty() {
    let raw = MessageRaw::default();
    assert_eq!(raw.addr_type(), (0, 0));
    assert_eq!(raw.length(), 0);
    assert!(raw.data_as_slice().is_empty());
}

#[test]
fn enumerated_bytes() {
    assert_eq!(OutputChangeRequest::Off.to_bytes(), 0);
    assert_eq!(OutputChangeRequest::On.to_bytes(), 1);
    assert_eq!(OutputChangeRequest::Toggle.to_bytes(), 2);
    assert_eq!(IOState::Off.to_bytes(), 0);
    assert_eq!(IOState::On.to_bytes(), 1);
    assert_eq!(IOState::Error.to_bytes(), 2);
    assert_eq!(IOState::Unknown.to_bytes(), 3);
    assert_eq!(Trigger::ShortClick.to_bytes(), 0);
    assert_eq!(Trigger::LongClick.to_bytes(), 1);
    assert_eq!(Trigger::Activated.to_bytes(), 2);
    assert_eq!(Trigger::Deactivated.to_bytes(), 3);
    assert_eq!(Trigger::LongActivated.to_bytes(), 4);
    assert_eq!(Trigger::LongDeactivated.to_bytes(), 5);
    assert_eq!(InfoCode::Started.to_bytes(), 10);
    for b in 0..=255u8 {
        assert_eq!(OutputChangeRequest::from_u8(b).map(|s| s.to_bytes()), if b <= 2 { Some(b) } else { None });
        assert_eq!(IOState::from_u8(b).map(|s| s.to_bytes()), if b <= 3 { Some(b) } else { None });
        assert_eq!(Trigger::from_u8(b).map(|s| s.to_bytes()), if b <= 5 { Some(b) } else { None });
    }
}

#[test]
fn truth_values() {
    assert_eq!(OutputChangeRequest::from_bool(true), OutputChangeRequest::On);
    assert_eq!(OutputChangeRequest::from_bool(false), OutputChangeRequest::Off);
    assert_eq!(OutputChangeRequest::On.try_to_bool(), Some(true));
    assert_eq!(OutputChangeRequest::Off.try_to_bool(), Some(false));
    assert_eq!(OutputChangeRequest::Toggle.try_to_bool(), None);
    assert_eq!(IOState::On.try_to_bool(), Some(true));
    assert_eq!(IOState::Off.try_to_bool(), Some(false));
    assert_eq!(IOState::Error.try_to_bool(), None);
    assert_eq!(IOState::Unknown.try_to_bool(), None);
}

#[test]
fn little_endian_numbers() {
    assert_eq!(u16_from_le(0xE8, 0x07), 2024);
    assert_eq!(u16_to_le(2024), [0xE8, 0x07]);
    assert_eq!(u32_from_le(1, 2, 3, 4), 0x0403_0201);
    assert_eq!(u32_to_le(0x0403_0201), [1, 2, 3, 4]);
    assert_eq!(u16_from_le(0xFF, 0xFF), u16::MAX);
    assert_eq!(u32_from_le(0xFF, 0xFF, 0xFF, 0xFF), u32::MAX);
    for x in 0..=u16::MAX {
        assert_eq!(u16_to_le(x), x.to_le_bytes());
        let b = x.to_le_bytes();
        assert_eq!(u16_from_le(b[0], b[1]), x);
    }
    for x in [0u32, 1, 0xFF, 0x100, 0xFFFF, 0x1_0000, 0xFF_FFFF, 0x100_0000, 0x1234_5678, u32::MAX] {
        assert_eq!(u32_to_le(x), x.to_le_bytes());
        let b = x.to_le_bytes();
        assert_eq!(u32_from_le(b[0], b[1], b[2], b[3]), x);
    }
}

#[test]
fn broadcast_address_is_the_last_one() {
    assert_eq!(BROADCAST_ADDRESS, 63);
}
