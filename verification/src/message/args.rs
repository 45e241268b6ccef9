//! The enumerated fields of a message and the bytes that stand for them.

use vstd::prelude::*;

pub use crate::consts::{InIdx, OutIdx, Trigger};

verus! {

/// Codes carried by an info message.
#[derive(Clone, Copy, Debug, PartialEq, Eq, Structural)]
pub enum InfoCode {
    /// The sending device has just started.
    Started,
}

/// What is asked of an output, or what was done to it.
#[derive(Clone, Copy, Debug, PartialEq, Eq, Structural)]
pub enum OutputChangeRequest {
    /// Disable the output.
    Off,
    /// Enable the output.
    On,
    /// Invert the output.
    Toggle,
}

/// State of an input or output.
#[derive(Clone, Copy, Debug, PartialEq, Eq, Structural)]
pub enum IOState {
    /// Disabled.
    Off,
    /// Enabled.
    On,
    /// The input or output exists, but its expander does not answer.
    Error,
    /// Not known; the index asked for may be invalid.
    Unknown,
}

/// Which side of a device an index speaks of.
#[derive(Clone, Copy, Debug, PartialEq, Eq, Structural)]
pub enum IOType {
    /// The index names an input.
    Input(InIdx),
    /// The index names an output.
    Output(OutIdx),
}

impl IOState {
    /// The byte that stands for this state.
    pub open spec fn code(self) -> u8 {
        match self {
            IOState::Off => 0,
            IOState::On => 1,
            IOState::Error => 2,
            IOState::Unknown => 3,
        }
    }

    /// The state that a byte stands for, if any.
    pub open spec fn of_code(raw: u8) -> Option<IOState> {
        if raw == 0 {
            Some(IOState::Off)
        } else if raw == 1 {
            Some(IOState::On)
        } else if raw == 2 {
            Some(IOState::Error)
        } else if raw == 3 {
            Some(IOState::Unknown)
        } else {
            None
        }
    }

    /// The truth value of this state: only `Off` and `On` have one.
    pub open spec fn as_bool(self) -> Option<bool> {
        match self {
            IOState::Off => Some(false),
            IOState::On => Some(true),
            _ => None,
        }
    }

    pub fn to_bytes(self) -> (b: u8)
        ensures
            b == self.code(),
    {
        match self {
            IOState::Off => 0,
            IOState::On => 1,
            IOState::Error => 2,
            IOState::Unknown => 3,
        }
    }

    pub fn from_u8(raw: u8) -> (r: Option<Self>)
        ensures
            r == Self::of_code(raw),
            r matches Some(s) ==> s.code() == raw,
            r is None <==> raw > 3,
    {
        match raw {
            0 => Some(IOState::Off),
            1 => Some(IOState::On),
            2 => Some(IOState::Error),
            3 => Some(IOState::Unknown),
            _ => None,
        }
    }

    pub fn try_to_bool(&self) -> (r: Option<bool>)
        ensures
            r == self.as_bool(),
    {
        match self {
            IOState::Off => Some(false),
            IOState::On => Some(true),
            _ => None,
        }
    }

    /// A byte stands for a state exactly when it is that state's code.
    pub proof fn lemma_code_inverse(s: IOState, raw: u8)
        ensures
            Self::of_code(s.code()) == Some(s),
            Self::of_code(raw) == Some(s) <==> s.code() == raw,
    {
    }
}

impl InfoCode {
    /// The number that stands for this code.
    pub open spec fn code(self) -> u16 {
        match self {
            InfoCode::Started => 10,
        }
    }

    pub fn to_bytes(self) -> (b: u16)
        ensures
            b == self.code(),
    {
        match self {
            InfoCode::Started => 10,
        }
    }
}

impl OutputChangeRequest {
    /// The byte that stands for this request.
    pub open spec fn code(self) -> u8 {
        match self {
            OutputChangeRequest::Off => 0,
            OutputChangeRequest::On => 1,
            OutputChangeRequest::Toggle => 2,
        }
    }

    /// The request that a byte stands for, if any.
    pub open spec fn of_code(raw: u8) -> Option<OutputChangeRequest> {
        if raw == 0 {
            Some(OutputChangeRequest::Off)
        } else if raw == 1 {
            Some(OutputChangeRequest::On)
        } else if raw == 2 {
            Some(OutputChangeRequest::Toggle)
        } else {
            None
        }
    }

    /// The request that switches an output to `on`.
    pub open spec fn of_bool(on: bool) -> OutputChangeRequest {
        if on {
            OutputChangeRequest::On
        } else {
            OutputChangeRequest::Off
        }
    }

    /// The truth value of this request: `Toggle` has none.
    pub open spec fn as_bool(self) -> Option<bool> {
        match self {
            OutputChangeRequest::Off => Some(false),
            OutputChangeRequest::On => Some(true),
            OutputChangeRequest::Toggle => None,
        }
    }

    pub fn to_bytes(self) -> (b: u8)
        ensures
            b == self.code(),
    {
        match self {
            OutputChangeRequest::Off => 0,
            OutputChangeRequest::On => 1,
            OutputChangeRequest::Toggle => 2,
        }
    }

    pub fn from_u8(raw: u8) -> (r: Option<Self>)
        ensures
            r == Self::of_code(raw),
            r matches Some(s) ==> s.code() == raw,
            r is None <==> raw > 2,
    {
        match raw {
            0 => Some(OutputChangeRequest::Off),
            1 => Some(OutputChangeRequest::On),
            2 => Some(OutputChangeRequest::Toggle),
            _ => None,
        }
    }

    pub fn from_bool(on: bool) -> (r: Self)
        ensures
            r == Self::of_bool(on),
            r.as_bool() == Some(on),
    {
        if on {
            OutputChangeRequest::On
        } else {
            OutputChangeRequest::Off
        }
    }

    pub fn try_to_bool(&self) -> (r: Option<bool>)
        ensures
            r == self.as_bool(),
            r matches Some(on) ==> *self == Self::of_bool(on),
            r is None <==> *self == OutputChangeRequest::Toggle,
    {
        match self {
            OutputChangeRequest::Off => Some(false),
            OutputChangeRequest::On => Some(true),
            OutputChangeRequest::Toggle => None,
        }
    }

    /// A byte stands for a request exactly when it is that request's code.
    pub proof fn lemma_code_inverse(s: OutputChangeRequest, raw: u8)
        ensures
            Self::of_code(s.code()) == Some(s),
            Self::of_code(raw) == Some(s) <==> s.code() == raw,
    {
    }
}

impl Trigger {
    /// The byte that stands for this trigger.
    pub open spec fn code(self) -> u8 {
        match self {
            Trigger::ShortClick => 0,
            Trigger::LongClick => 1,
            Trigger::Activated => 2,
            Trigger::Deactivated => 3,
            Trigger::LongActivated => 4,
            Trigger::LongDeactivated => 5,
        }
    }

    /// The trigger that a byte stands for, if any.
    pub open spec fn of_code(raw: u8) -> Option<Trigger> {
        if raw == 0 {
            Some(Trigger::ShortClick)
        } else if raw == 1 {
            Some(Trigger::LongClick)
        } else if raw == 2 {
            Some(Trigger::Activated)
        } else if raw == 3 {
            Some(Trigger::Deactivated)
        } else if raw == 4 {
            Some(Trigger::LongActivated)
        } else if raw == 5 {
            Some(Trigger::LongDeactivated)
        } else {
            None
        }
    }

    pub fn to_bytes(self) -> (b: u8)
        ensures
            b == self.code(),
    {
        match self {
            Trigger::ShortClick => 0,
            Trigger::LongClick => 1,
            Trigger::Activated => 2,
            Trigger::Deactivated => 3,
            Trigger::LongActivated => 4,
            Trigger::LongDeactivated => 5,
        }
    }

    pub fn from_u8(raw: u8) -> (r: Option<Self>)
        ensures
            r == Self::of_code(raw),
            r matches Some(s) ==> s.code() == raw,
            r is None <==> raw > 5,
    {
        match raw {
            0 => Some(Trigger::ShortClick),
            1 => Some(Trigger::LongClick),
            2 => Some(Trigger::Activated),
            3 => Some(Trigger::Deactivated),
            4 => Some(Trigger::LongActivated),
            5 => Some(Trigger::LongDeactivated),
            _ => None,
        }
    }

    /// A byte stands for a trigger exactly when it is that trigger's code.
    pub proof fn lemma_code_inverse(s: Trigger, raw: u8)
        ensures
            Self::of_code(s.code()) == Some(s),
            Self::of_code(raw) == Some(s) <==> s.code() == raw,
    {
    }
}

impl IOType {
    /// The index that this value carries.
    pub open spec fn index(self) -> u8 {
        match self {
            IOType::Input(idx) => idx,
            IOType::Output(idx) => idx,
        }
    }

    /// The byte that tells the two sides apart: 0 for an input, 1 for an output.
    pub open spec fn kind_code(self) -> u8 {
        match self {
            IOType::Input(_) => 0,
            IOType::Output(_) => 1,
        }
    }

    /// The value that a kind byte and an index stand for, if any.
    pub open spec fn of_code(kind: u8, idx: u8) -> Option<IOType> {
        if kind == 0 {
            Some(IOType::Input(idx))
        } else if kind == 1 {
            Some(IOType::Output(idx))
        } else {
            None
        }
    }
}

} // verus!
