use io_gate::shutters::{Cmd, TargetPosition};

fn commands() -> Vec<(Cmd, [u8; 5])> {
    vec![
        (Cmd::Go(TargetPosition::new(40, 60)), [0x01, 40, 60, 0, 0]),
        (Cmd::Open, [0x02, 0, 0, 0, 0]),
        (Cmd::Close, [0x03, 0, 0, 0, 0]),
        (Cmd::Tilt(77), [0x04, 77, 0, 0, 0]),
        (Cmd::TiltClose, [0x05, 0, 0, 0, 0]),
        (Cmd::TiltOpen, [0x06, 0, 0, 0, 0]),
        (Cmd::TiltHalf, [0x07, 0, 0, 0, 0]),
        (Cmd::TiltReverse, [0x08, 0, 0, 0, 0]),
        (Cmd::SetIO(3, 4), [0x10, 3, 4, 0, 0]),
    ]
}

#[test]
fn command_bytes() {
    for (cmd, bytes) in commands() {
        assert_eq!(cmd.to_bytes(), bytes, "{:?}", cmd);
    }
}

#[test]
fn command_is_written_over_what_was_there() {
    for (cmd, bytes) in commands() {
        let mut five = [0xAAu8; 5];
        cmd.to_raw(&mut five);
        assert_eq!(five, bytes);
        let mut nine = [0xAAu8; 9];
        cmd.to_raw(&mut nine);
        assert_eq!(&nine[..5], &bytes[..]);
        assert_eq!(&nine[5..], &[0u8; 4][..]);
    }
}

#[test]
fn commands_are_read_back() {
    for (cmd, bytes) in commands() {
        assert_eq!(Cmd::from_raw(&bytes), Some(cmd));
    }
}

#[test]
fn unknown_command_codes_are_refused() {
    for code in 0..=255u8 {
        let known = (1..=8).contains(&code) || code == 0x10;
        assert_eq!(Cmd::from_raw(&[code, 1, 2, 3, 4]).is_some(), known, "code {:#x}", code);
    }
}

#[test]
fn only_the_arguments_called_for_are_read() {
    assert_eq!(Cmd::from_raw(&[0x02, 9, 9, 9, 9]), Some(Cmd::Open));
    assert_eq!(Cmd::from_raw(&[0x04, 9, 8, 7, 6]), Some(Cmd::Tilt(9)));
    assert_eq!(Cmd::from_raw(&[0x10, 9, 8, 7, 6]), Some(Cmd::SetIO(9, 8)));
    assert_eq!(
        Cmd::from_raw(&[0x01, 200, 201, 7, 6]),
        Some(Cmd::Go(TargetPosition::new(200, 201)))
    );
}

#[test]
fn target_position_parts() {
    let p = TargetPosition::new(12, 34);
    assert_eq!(p.height(), 12);
    assert_eq!(p.tilt(), 34);
    assert_eq!(p, TargetPosition::new(12, 34));
    assert_ne!(p, TargetPosition::new(34, 12));
}
