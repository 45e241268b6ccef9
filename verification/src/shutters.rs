//! Commands understood by a shutter driver and their five-byte form.

use vstd::prelude::*;

use crate::consts::OutIdx;

pub mod codes;

verus! {

/// Command to a shutter driver.
#[derive(Eq, PartialEq, Clone, Copy, Debug, Structural)]
pub enum Cmd {
    /// Move to a height and a tilt, each 0 to 100: first the ride, then the tilt.
    Go(TargetPosition),
    /// Uncover completely.
    Open,
    /// Cover completely.
    Close,
    /// Keep the height and change the tilt to the given 0 to 100.
    Tilt(u8),
    /// Tilt to completely closed.
    TiltClose,
    /// Tilt to completely open.
    TiltOpen,
    /// Tilt to 45 degrees.
    TiltHalf,
    /// Open the tilt unless it is completely open; then close it.
    TiltReverse,
    /// Tell the driver which outputs move the shutter down and up.
    SetIO(OutIdx, OutIdx),
}

/// Number of bytes that a command takes.
pub const CMD_LENGTH: usize = 5;

/// Where a shutter is asked to go, in whole percent.
#[derive(Debug, Clone, Copy, Eq, PartialEq, Structural)]
pub struct TargetPosition {
    /// Height, from 0 (open) to 100 (closed).
    height: u8,
    /// Tilt, from 0 (open) to 100 (closed).
    tilt: u8,
}

impl TargetPosition {
    /// The height of this position.
    pub closed spec fn spec_height(&self) -> u8 {
        self.height
    }

    /// The tilt of this position.
    pub closed spec fn spec_tilt(&self) -> u8 {
        self.tilt
    }

    /// The position with the given height and tilt.
    pub closed spec fn at(height: u8, tilt: u8) -> TargetPosition {
        TargetPosition { height, tilt }
    }

    pub fn new(height: u8, tilt: u8) -> (p: Self)
        ensures
            p == Self::at(height, tilt),
            p.height() == height,
            p.tilt() == tilt,
    {
        Self { height, tilt }
    }

    /// Height, from 0 (open) to 100 (closed).
    #[verifier::when_used_as_spec(spec_height)]
    pub fn height(&self) -> (h: u8)
        ensures
            h == self.height(),
    {
        self.height
    }

    /// Tilt, from 0 (open) to 100 (closed).
    #[verifier::when_used_as_spec(spec_tilt)]
    pub fn tilt(&self) -> (t: u8)
        ensures
            t == self.tilt(),
    {
        self.tilt
    }

    /// A position is its height and its tilt, and nothing more.
    pub proof fn lemma_at(height: u8, tilt: u8, p: TargetPosition)
        ensures
            Self::at(height, tilt).height() == height,
            Self::at(height, tilt).tilt() == tilt,
            Self::at(p.height(), p.tilt()) == p,
    {
    }
}

impl Cmd {
    /// The five bytes that stand for this command: its code, its arguments, zeros.
    pub open spec fn bytes(self) -> Seq<u8> {
        match self {
            Cmd::Go(position) => seq![codes::GO, position.height(), position.tilt(), 0, 0],
            Cmd::Open => seq![codes::OPEN, 0, 0, 0, 0],
            Cmd::Close => seq![codes::CLOSE, 0, 0, 0, 0],
            Cmd::Tilt(tilt) => seq![codes::TILT, tilt, 0, 0, 0],
            Cmd::TiltClose => seq![codes::TILT_CLOSE, 0, 0, 0, 0],
            Cmd::TiltOpen => seq![codes::TILT_OPEN, 0, 0, 0, 0],
            Cmd::TiltHalf => seq![codes::TILT_HALF, 0, 0, 0, 0],
            Cmd::TiltReverse => seq![codes::TILT_REVERSE, 0, 0, 0, 0],
            Cmd::SetIO(down, up) => seq![codes::SET_IO, down, up, 0, 0],
        }
    }

    /// The command that five bytes stand for, if any. Only the code and the
    /// arguments that the code calls for are looked at.
    pub open spec fn of_bytes(raw: Seq<u8>) -> Option<Cmd> {
        let code = raw[0];
        if code == codes::GO {
            Some(Cmd::Go(TargetPosition::at(raw[1], raw[2])))
        } else if code == codes::OPEN {
            Some(Cmd::Open)
        } else if code == codes::CLOSE {
            Some(Cmd::Close)
        } else if code == codes::TILT {
            Some(Cmd::Tilt(raw[1]))
        } else if code == codes::TILT_CLOSE {
            Some(Cmd::TiltClose)
        } else if code == codes::TILT_OPEN {
            Some(Cmd::TiltOpen)
        } else if code == codes::TILT_HALF {
            Some(Cmd::TiltHalf)
        } else if code == codes::TILT_REVERSE {
            Some(Cmd::TiltReverse)
        } else if code == codes::SET_IO {
            Some(Cmd::SetIO(raw[1], raw[2]))
        } else {
            None
        }
    }

    pub fn from_raw(raw: &[u8; 5]) -> (r: Option<Self>)
        ensures
            r == Self::of_bytes(raw@),
            r is None <==> !(1 <= raw@[0] <= 8 || raw@[0] == 0x10),
    {
        let code: u8 = raw[0];
        if code == codes::GO {
            Some(Cmd::Go(TargetPosition::new(raw[1], raw[2])))
        } else if code == codes::OPEN {
            Some(Cmd::Open)
        } else if code == codes::CLOSE {
            Some(Cmd::Close)
        } else if code == codes::TILT {
            Some(Cmd::Tilt(raw[1]))
        } else if code == codes::TILT_CLOSE {
            Some(Cmd::TiltClose)
        } else if code == codes::TILT_OPEN {
            Some(Cmd::TiltOpen)
        } else if code == codes::TILT_HALF {
            Some(Cmd::TiltHalf)
        } else if code == codes::TILT_REVERSE {
            Some(Cmd::TiltReverse)
        } else if code == codes::SET_IO {
            Some(Cmd::SetIO(raw[1], raw[2]))
        } else {
            None
        }
    }

    /// The five bytes of this command.
    pub fn to_bytes(&self) -> (out: [u8; 5])
        ensures
            out@ == self.bytes(),
    {
        let out: [u8; 5] = match self {
            Cmd::Go(position) => [codes::GO, position.height(), position.tilt(), 0, 0],
            Cmd::Open => [codes::OPEN, 0, 0, 0, 0],
            Cmd::Close => [codes::CLOSE, 0, 0, 0, 0],
            Cmd::Tilt(tilt) => [codes::TILT, *tilt, 0, 0, 0],
            Cmd::TiltClose => [codes::TILT_CLOSE, 0, 0, 0, 0],
            Cmd::TiltOpen => [codes::TILT_OPEN, 0, 0, 0, 0],
            Cmd::TiltHalf => [codes::TILT_HALF, 0, 0, 0, 0],
            Cmd::TiltReverse => [codes::TILT_REVERSE, 0, 0, 0, 0],
            Cmd::SetIO(down, up) => [codes::SET_IO, *down, *up, 0, 0],
        };
        assert(out@ =~= self.bytes());
        out
    }

    /// Writes this command at the start of `raw` and zeros after it.
    pub fn to_raw(&self, raw: &mut [u8])
        requires
            old(raw)@.len() >= 5,
        ensures
            final(raw)@.len() == old(raw)@.len(),
            final(raw)@.subrange(0, 5) == self.bytes(),
            forall|i: int| 5 <= i < final(raw)@.len() ==> final(raw)@[i] == 0,
    {
        let bytes = self.to_bytes();
        let n: usize = raw.len();
        let mut i: usize = 0;
        while i < n
            invariant
                n == raw@.len(),
                n >= 5,
                i <= n,
                bytes@ == self.bytes(),
                forall|j: int| 0 <= j < i && j < 5 ==> raw@[j] == bytes@[j],
                forall|j: int| 5 <= j < i ==> raw@[j] == 0,
            decreases n - i,
        {
            if i < CMD_LENGTH {
                raw[i] = bytes[i];
            } else {
                raw[i] = 0;
            }
            i += 1;
        }
        assert(raw@.subrange(0, 5) =~= self.bytes());
    }

    /// Every command is read back from its five bytes as it was written.
    pub proof fn lemma_read_back(cmd: Cmd)
        ensures
            cmd.bytes().len() == 5,
            Self::of_bytes(cmd.bytes()) == Some(cmd),
    {
        if let Cmd::Go(position) = cmd {
            TargetPosition::lemma_at(0, 0, position);
        }
    }
}

} // verus!
