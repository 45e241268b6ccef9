//! What the gateway makes of a record from the bus, of a command from the
//! home-automation side, and of the passing of time.

use vstd::prelude::*;

use crate::clock::WallClock;
use crate::config::DeviceConfig;
use crate::homeassistant::discovery::{device_text, new_device, ComponentText, DiscoveryText};
use crate::homeassistant::message::{Incoming, Outgoing, OutgoingText};
use crate::message::args::{InfoCode, OutputChangeRequest};
use crate::message::{DecodeError, Message, MessageRaw, WireRecord, BROADCAST_ADDRESS};

verus! {

/// Seconds between two announcements of the time.
pub const TIME_ANNOUNCEMENT_PERIOD: u64 = 60;

/// What is done with a record that came from the bus.
#[derive(Debug, Clone, Copy, PartialEq, Eq, Structural)]
pub enum Inbound {
    /// Tell the home-automation side that an output is now on or off.
    OutputChanged { device: u8, output: u8, on: bool },
    /// A device has started; this is noted and nothing else.
    DeviceStarted { device: u8 },
    /// A device sent some other information; this is noted and nothing else.
    Info { device: u8, code: u16, arg: u32 },
    /// An output was inverted. That says neither on nor off, so nothing is
    /// told to the home-automation side.
    Unsupported { device: u8, output: u8 },
    /// A message that calls for nothing.
    Ignored(Message),
    /// The record stands for no message.
    Undecodable(DecodeError),
}

/// What is done with a record from the bus.
pub open spec fn inbound_of(w: WireRecord) -> Inbound {
    match Message::decoded(w) {
        Err(e) => Inbound::Undecodable(e),
        Ok(Message::OutputChanged { output, state }) => match state.as_bool() {
            Some(on) => Inbound::OutputChanged { device: w.addr, output, on },
            None => Inbound::Unsupported { device: w.addr, output },
        },
        Ok(Message::Info { code, arg }) => if code == InfoCode::Started.code() {
            Inbound::DeviceStarted { device: w.addr }
        } else {
            Inbound::Info { device: w.addr, code, arg }
        },
        Ok(m) => Inbound::Ignored(m),
    }
}

/// Decides what is done with a record that came from the bus.
pub fn route_inbound(raw: &MessageRaw) -> (action: Inbound)
    ensures
        action == inbound_of(raw@),
{
    let (device, _) = raw.addr_type();
    match Message::from_raw(raw) {
        Err(e) => Inbound::Undecodable(e),
        Ok(Message::OutputChanged { output, state }) => match state.try_to_bool() {
            Some(on) => Inbound::OutputChanged { device, output, on },
            None => Inbound::Unsupported { device, output },
        },
        Ok(Message::Info { code, arg }) => {
            if code == InfoCode::Started.to_bytes() {
                Inbound::DeviceStarted { device }
            } else {
                Inbound::Info { device, code, arg }
            }
        },
        Ok(m) => Inbound::Ignored(m),
    }
}

/// The record that a command from the home-automation side is sent as, if it
/// is sent at all.
pub open spec fn outbound_of(command: Incoming) -> Option<WireRecord> {
    match command {
        Incoming::SetOutput { device, output, on } => Some(
            (Message::SetOutput { output, state: OutputChangeRequest::of_bool(on) }).encoded(device),
        ),
        Incoming::RawTest(_) => None,
    }
}

/// What an optional record holds.
pub open spec fn record_view(r: Option<MessageRaw>) -> Option<WireRecord> {
    match r {
        Some(raw) => Some(raw@),
        None => None,
    }
}

/// Writes the record by which a command from the home-automation side
/// reaches its device. A test publication reaches no device.
pub fn route_command(command: &Incoming) -> (r: Option<MessageRaw>)
    ensures
        record_view(r) == outbound_of(*command),
{
    match command {
        Incoming::RawTest(_) => None,
        Incoming::SetOutput { device, output, on } => {
            let msg = Message::SetOutput {
                output: *output,
                state: OutputChangeRequest::from_bool(*on),
            };
            Some(msg.to_raw(*device))
        },
    }
}

/// A command to set an output goes to its device as two bytes: the output,
/// then 1 for on and 0 for off.
pub proof fn lemma_set_output_record(device: u8, output: u8, on: bool)
    ensures
        outbound_of(Incoming::SetOutput { device, output, on }) == Some(
            WireRecord {
                addr: device,
                msg_type: 0x08,
                payload: seq![
                    output,
                    if on {
                        1u8
                    } else {
                        0u8
                    },
                ],
            },
        ),
{
    let w = outbound_of(Incoming::SetOutput { device, output, on })->Some_0;
    assert(w.payload =~= seq![
        output,
        if on {
            1u8
        } else {
            0u8
        },
    ]);
}

/// The home-automation side is told of a change exactly when a record says
/// that an output is now on or now off, and what it is told is the device
/// that sent the record, the output and the state. A record that says that
/// an output was inverted is set aside as unsupported, and no other is.
pub proof fn lemma_state_changes(w: WireRecord, device: u8, output: u8, on: bool)
    ensures
        inbound_of(w) == (Inbound::OutputChanged { device, output, on }) <==> (w.addr == device
            && w.msg_type == 0x04 && w.payload == seq![
            output,
            if on {
                1u8
            } else {
                0u8
            },
        ]),
        inbound_of(w) == (Inbound::Unsupported { device, output }) <==> (w.addr == device
            && w.msg_type == 0x04 && w.payload == seq![output, 2u8]),
{
    if w.msg_type == 0x04 && w.payload.len() == 2 {
        assert(w.payload =~= seq![w.payload[0], w.payload[1]]);
    }
}

/// The announcement of a reading of the clock. Each part is cut to the width
/// of its field; a day of the week is 1 for Monday to 7 for Sunday.
pub open spec fn announcement_of(now: WallClock) -> Message {
    Message::TimeAnnouncement {
        year: now.year as u16,
        month: now.month as u8,
        day: now.day as u8,
        hour: now.hour as u8,
        minute: now.minute as u8,
        second: now.second as u8,
        day_of_week: now.day_of_week as u8,
    }
}

/// Nothing is cut from a reading whose parts are those of a calendar and a
/// clock, in a year from 0 to 65535: the announcement holds the parts as read.
pub proof fn lemma_announcement_keeps_reading(now: WallClock)
    requires
        now.in_range(),
        0 <= now.year <= 65535,
    ensures
        announcement_of(now) matches Message::TimeAnnouncement {
            year,
            month,
            day,
            hour,
            minute,
            second,
            day_of_week,
        } && year == now.year && month == now.month && day == now.day && hour == now.hour && minute
            == now.minute && second == now.second && day_of_week == now.day_of_week,
{
}

/// Writes the announcement of a reading of the clock.
pub fn time_announcement(now: &WallClock) -> (m: Message)
    ensures
        m == announcement_of(*now),
{
    Message::TimeAnnouncement {
        year: #[verifier::truncate] (now.year as u16),
        month: #[verifier::truncate] (now.month as u8),
        day: #[verifier::truncate] (now.day as u8),
        hour: #[verifier::truncate] (now.hour as u8),
        minute: #[verifier::truncate] (now.minute as u8),
        second: #[verifier::truncate] (now.second as u8),
        day_of_week: #[verifier::truncate] (now.day_of_week as u8),
    }
}

/// Writes the record that announces a reading of the clock to every device.
pub fn time_broadcast(now: &WallClock) -> (raw: MessageRaw)
    ensures
        raw@ == announcement_of(*now).encoded(BROADCAST_ADDRESS),
{
    time_announcement(now).to_raw(BROADCAST_ADDRESS)
}

/// Reads the clock and writes the record that announces the reading to every
/// device.
pub fn time_broadcast_now() -> (raw: MessageRaw)
    ensures
        exists|now: WallClock|
            now.in_range() && raw@ == (#[trigger] announcement_of(now)).encoded(BROADCAST_ADDRESS),
        raw@.addr == BROADCAST_ADDRESS,
        raw@.msg_type == crate::message::msg_type::TIME_ANNOUNCEMENT,
        raw@.payload.len() == 8,
{
    let now = WallClock::now();
    time_broadcast(&now)
}

/// The subscriptions asked for the first `n` components of a device: one
/// for each component that takes commands, in the order of the components.
pub open spec fn subscriptions_of(
    components: Seq<(Seq<char>, ComponentText)>,
    n: int,
) -> Seq<OutgoingText>
    decreases n,
{
    if n <= 0 {
        Seq::empty()
    } else {
        let before = subscriptions_of(components, n - 1);
        match components[n - 1].1.command_topic {
            Some(topic) => before.push(OutgoingText::Subscribe(topic)),
            None => before,
        }
    }
}

/// What is sent when a device is taken up: the subscriptions to its command
/// topics, then the document that announces it.
pub open spec fn startup_of(document: DiscoveryText) -> Seq<OutgoingText> {
    subscriptions_of(document.components, document.components.len() as int).push(
        OutgoingText::DiscoveryDevice(document),
    )
}

/// What a run of messages says.
pub open spec fn outgoing_views(messages: Seq<Outgoing>) -> Seq<OutgoingText> {
    Seq::new(messages.len(), |i: int| messages[i]@)
}

/// Lists what is sent to the home-automation side when a device is taken up.
pub fn startup_messages(name: &str, config: &DeviceConfig) -> (messages: Vec<Outgoing>)
    requires
        config.wf(),
    ensures
        outgoing_views(messages@) == startup_of(device_text(name@, *config)),
{
    let document = new_device(name, config);
    let mut messages: Vec<Outgoing> = Vec::new();
    let n: usize = document.components.len();
    let mut i: usize = 0;
    assert(outgoing_views(messages@) =~= subscriptions_of(document@.components, 0));
    while i < n
        invariant
            n == document.components@.len(),
            n == document@.components.len(),
            i <= n,
            outgoing_views(messages@) == subscriptions_of(document@.components, i as int),
        decreases n - i,
    {
        let ghost old_messages = messages@;
        assert(document@.components[i as int].1 == document.components@[i as int].1@);
        match &document.components[i].1.command_topic {
            Some(topic) => {
                messages.push(Outgoing::Subscribe(topic.clone()));
                assert(outgoing_views(messages@) =~= outgoing_views(old_messages).push(
                    OutgoingText::Subscribe(topic@),
                ));
            },
            None => {},
        }
        i += 1;
    }
    let ghost old_messages = messages@;
    let ghost text = document@;
    messages.push(Outgoing::DiscoveryDevice(document));
    assert(outgoing_views(messages@) =~= outgoing_views(old_messages).push(
        OutgoingText::DiscoveryDevice(text),
    ));
    messages
}

} // verus!
