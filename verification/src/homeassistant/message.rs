//! What passes between the gateway and the home-automation side.

use vstd::prelude::*;

use crate::homeassistant::discovery::{Discovery, DiscoveryText};

verus! {

/// What the gateway sends to the home-automation side.
#[derive(Debug)]
pub enum Outgoing {
    /// Listen on the topic given. Nothing is published.
    Subscribe(String),
    /// Sent once, when the gateway has started.
    Initial,
    /// For debugging only.
    RawTest(Vec<u8>),
    /// The document that announces a device.
    DiscoveryDevice(Discovery),
    /// An output of a device is now on or off.
    OutputChanged {
        /// Device address.
        device: u8,
        /// Output index.
        output: u8,
        /// On or off.
        on: bool,
    },
}

/// What the home-automation side sends to the gateway.
#[derive(Debug)]
pub enum Incoming {
    /// For debugging only.
    RawTest(Vec<u8>),
    /// Set an output of a device on or off.
    SetOutput {
        /// Device address.
        device: u8,
        /// Output index.
        output: u8,
        /// On or off.
        on: bool,
    },
}

/// What a message to the home-automation side says.
pub enum OutgoingText {
    Subscribe(Seq<char>),
    Initial,
    RawTest(Seq<u8>),
    DiscoveryDevice(DiscoveryText),
    OutputChanged { device: u8, output: u8, on: bool },
}

impl View for Outgoing {
    type V = OutgoingText;

    open spec fn view(&self) -> OutgoingText {
        match self {
            Outgoing::Subscribe(topic) => OutgoingText::Subscribe(topic@),
            Outgoing::Initial => OutgoingText::Initial,
            Outgoing::RawTest(raw) => OutgoingText::RawTest(raw@),
            Outgoing::DiscoveryDevice(document) => OutgoingText::DiscoveryDevice(document@),
            Outgoing::OutputChanged { device, output, on } => OutgoingText::OutputChanged {
                device: *device,
                output: *output,
                on: *on,
            },
        }
    }
}

} // verus!
