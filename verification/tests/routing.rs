use io_gate::clock::WallClock;
use io_gate::consts::Trigger;
use io_gate::homeassistant::Incoming;
use io_gate::message::args::{IOState, IOType, OutputChangeRequest};
use io_gate::message::{DecodeError, Message, MessageRaw, BROADCAST_ADDRESS};
use io_gate::shutters::Cmd;
use io_gate::router::{
    route_command, route_inbound, time_announcement, time_broadcast, time_broadcast_now, Inbound,
    TIME_ANNOUNCEMENT_PERIOD,
};

#[test]
fn set_output_command_becomes_a_record() {
    let raw = route_command(&Incoming::SetOutput { device: 2, output: 5, on: true }).unwrap();
    assert_eq!(raw.addr_type(), (2, 0x08));
    assert_eq!(raw.length(), 2);
    assert_eq!(raw.data_as_slice(), &[5u8, 1][..]);

    let raw = route_command(&Incoming::SetOutput { device: 40, output: 0, on: false }).unwrap();
    assert_eq!(raw.addr_type(), (40, 0x08));
    assert_eq!(raw.data_as_slice(), &[0u8, 0][..]);
}

#[test]
fn test_publication_reaches_no_device() {
    assert!(route_command(&Incoming::RawTest(vec![1, 2, 3])).is_none());
    assert!(route_command(&Incoming::RawTest(vec![])).is_none());
}

#[test]
fn time_announcement_for_a_fixed_instant() {
    let friday = WallClock {
        year: 2024,
        month: 3,
        day: 1,
        hour: 10,
        minute: 15,
        second: 30,
        day_of_week: 5,
    };
    let raw = time_broadcast(&friday);
    assert_eq!(raw.addr_type(), (BROADCAST_ADDRESS, 0x11));
    assert_eq!(raw.length(), 8);
    assert_eq!(raw.data_as_slice(), &[0xE8u8, 0x07, 3, 1, 10, 15, 30, 5][..]);
    assert_eq!(
        time_announcement(&friday),
        Message::TimeAnnouncement {
            year: 2024,
            month: 3,
            day: 1,
            hour: 10,
            minute: 15,
            second: 30,
            day_of_week: 5
        }
    );
}

#[test]
fn time_announcement_cuts_what_does_not_fit() {
    let odd = WallClock {
        year: 65536 + 1999,
        month: 12,
        day: 31,
        hour: 23,
        minute: 59,
        second: 59,
        day_of_week: 7,
    };
    assert_eq!(
        time_announcement(&odd),
        Message::TimeAnnouncement {
            year: 1999,
            month: 12,
            day: 31,
            hour: 23,
            minute: 59,
            second: 59,
            day_of_week: 7
        }
    );
    let before = WallClock { year: -1, ..odd };
    match time_announcement(&before) {
        Message::TimeAnnouncement { year, .. } => assert_eq!(year, u16::MAX),
        other => panic!("{:?}", other),
    }
}

#[test]
fn time_announcement_of_the_present() {
    let raw = time_broadcast_now();
    assert_eq!(raw.addr_type(), (BROADCAST_ADDRESS, 0x11));
    assert_eq!(raw.length(), 8);
    match Message::from_raw(&raw) {
        Ok(Message::TimeAnnouncement { year, month, day, hour, minute, second, day_of_week }) => {
            assert!(year >= 1970, "year {}", year);
            assert!((1..=12).contains(&month));
            assert!((1..=31).contains(&day));
            assert!(hour <= 23);
            assert!(minute <= 59);
            assert!(second <= 59);
            assert!((1..=7).contains(&day_of_week));
        }
        other => panic!("{:?}", other),
    }
}

#[test]
fn time_is_announced_every_minute() {
    assert_eq!(TIME_ANNOUNCEMENT_PERIOD, 60);
}

#[test]
fn toggled_output_is_not_reported() {
    let raw = MessageRaw::from_bytes(7, 0x04, &[3, 2]);
    assert_eq!(route_inbound(&raw), Inbound::Unsupported { device: 7, output: 3 });
    let raw = Message::OutputChanged { output: 9, state: OutputChangeRequest::Toggle }.to_raw(1);
    assert_eq!(route_inbound(&raw), Inbound::Unsupported { device: 1, output: 9 });
}

#[test]
fn switched_output_is_reported() {
    let raw = MessageRaw::from_bytes(7, 0x04, &[3, 1]);
    assert_eq!(route_inbound(&raw), Inbound::OutputChanged { device: 7, output: 3, on: true });
    let raw = MessageRaw::from_bytes(8, 0x04, &[4, 0]);
    assert_eq!(route_inbound(&raw), Inbound::OutputChanged { device: 8, output: 4, on: false });
}

#[test]
fn started_device_is_noted() {
    let raw = Message::Info { code: 10, arg: 0 }.to_raw(12);
    assert_eq!(route_inbound(&raw), Inbound::DeviceStarted { device: 12 });
    let raw = Message::Info { code: 10, arg: 77 }.to_raw(12);
    assert_eq!(route_inbound(&raw), Inbound::DeviceStarted { device: 12 });
    let raw = Message::Info { code: 11, arg: 5 }.to_raw(12);
    assert_eq!(route_inbound(&raw), Inbound::Info { device: 12, code: 11, arg: 5 });
}

#[test]
fn other_messages_are_ignored() {
    let others = [
        Message::Error { code: 1 },
        Message::StatusIO { io: IOType::Output(1), state: IOState::On },
        Message::InputChanged { input: 1, trigger: Trigger::ShortClick },
        Message::SetOutput { output: 1, state: OutputChangeRequest::On },
        Message::TriggerInput { input: 1, trigger: Trigger::LongClick },
        Message::RequestStatus,
        Message::Ping { body: 1 },
        Message::Pong { body: 1 },
        Message::Status { uptime: 1, errors: 2, warnings: 3 },
        Message::TimeAnnouncement {
            year: 2024,
            month: 1,
            day: 1,
            hour: 0,
            minute: 0,
            second: 0,
            day_of_week: 1,
        },
        Message::CallProcedure { proc_id: 1 },
        Message::ShutterCmd { shutter_idx: 1, cmd: Cmd::TiltHalf },
    ];
    for m in others {
        assert_eq!(route_inbound(&m.to_raw(5)), Inbound::Ignored(m));
    }
}

#[test]
fn records_that_cannot_be_read_are_reported_as_such() {
    let raw = MessageRaw::from_bytes(7, 0x1F, &[]);
    assert_eq!(route_inbound(&raw), Inbound::Undecodable(DecodeError::UnknownType));
    let raw = MessageRaw::from_bytes(7, 0x04, &[3]);
    assert_eq!(route_inbound(&raw), Inbound::Undecodable(DecodeError::LengthMismatch));
    let raw = MessageRaw::from_bytes(7, 0x04, &[3, 3]);
    assert_eq!(route_inbound(&raw), Inbound::Undecodable(DecodeError::InvalidEnumValue));
}
