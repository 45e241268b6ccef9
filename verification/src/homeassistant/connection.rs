//! What is said to the broker and what is made of what it delivers.
//!
//! A command for an output arrives on `<control prefix>/<device>/switch/<output>/set`,
//! with `ON` as payload to switch the output on and anything else to switch it off.

use vstd::prelude::*;
use vstd::string::*;

use crate::consts::{HA_CONTROL_TOPIC, HA_DISCOVERY_TOPIC};
use crate::homeassistant::discovery::{state_topic, switch_topic, Discovery, DiscoveryText};
use crate::homeassistant::message::{Incoming, Outgoing, OutgoingText};

verus! {

/// The byte that parts the levels of a topic: `/`.
pub const SLASH: u8 = 0x2F;

/// The sign that a number may begin with: `+`.
pub const PLUS: u8 = 0x2B;

/// The levels of a topic: what stands between its slashes, in order. A topic
/// of `n` slashes has `n + 1` levels, empty ones among them.
pub open spec fn levels(topic: Seq<u8>) -> Seq<Seq<u8>>
    decreases topic.len(),
{
    if topic.len() == 0 {
        seq![Seq::empty()]
    } else {
        let before = levels(topic.drop_last());
        if topic.last() == SLASH {
            before.push(Seq::empty())
        } else {
            before.update(before.len() - 1, before.last().push(topic.last()))
        }
    }
}

/// A byte is a decimal digit.
pub open spec fn is_digit(b: u8) -> bool {
    0x30 <= b <= 0x39
}

/// Every byte is a decimal digit.
pub open spec fn all_digits(s: Seq<u8>) -> bool {
    forall|i: int| 0 <= i < s.len() ==> is_digit(#[trigger] s[i])
}

/// The number that a run of decimal digits writes.
pub open spec fn digits_value(s: Seq<u8>) -> nat
    decreases s.len(),
{
    if s.len() == 0 {
        0
    } else {
        10 * digits_value(s.drop_last()) + (s.last() - 0x30) as nat
    }
}

/// The byte that a text writes in decimal: an optional plus sign, then one
/// digit or more, leading zeros allowed, of a value up to 255.
pub open spec fn number(s: Seq<u8>) -> Option<u8> {
    let digits = if s.len() > 0 && s[0] == PLUS {
        s.skip(1)
    } else {
        s
    };
    if digits.len() > 0 && all_digits(digits) && digits_value(digits) <= 255 {
        Some(digits_value(digits) as u8)
    } else {
        None
    }
}

/// The command that a publication stands for, if any: the topic has five
/// levels, the first the control prefix, the third `switch`, the fifth `set`,
/// and the second and fourth name a device and an output.
pub open spec fn command_of(topic: Seq<u8>, payload: Seq<u8>) -> Option<(u8, u8, bool)> {
    let parts = levels(topic);
    if parts.len() == 5 && parts[0] == HA_CONTROL_TOPIC.spec_bytes() && parts[2]
        == "switch".spec_bytes() && parts[4] == "set".spec_bytes() {
        match (number(parts[1]), number(parts[3])) {
            (Some(device), Some(output)) => Some((device, output, payload == "ON".spec_bytes())),
            _ => None,
        }
    } else {
        None
    }
}

/// What a result of `Incoming::from_publish` says.
pub open spec fn command_view(r: Option<Incoming>) -> Option<(u8, u8, bool)> {
    match r {
        Some(Incoming::SetOutput { device, output, on }) => Some((device, output, on)),
        _ => None,
    }
}

/// What a list of levels says.
pub open spec fn levels_view(parts: Seq<Vec<u8>>) -> Seq<Seq<u8>> {
    Seq::new(parts.len(), |i: int| parts[i]@)
}

/// Parts a topic into its levels.
pub fn split_levels(topic: &[u8]) -> (parts: Vec<Vec<u8>>)
    ensures
        levels_view(parts@) == levels(topic@),
        parts@.len() >= 1,
{
    let mut parts: Vec<Vec<u8>> = Vec::new();
    let mut current: Vec<u8> = Vec::new();
    let n: usize = topic.len();
    let mut i: usize = 0;
    assert(topic@.subrange(0, 0) =~= Seq::<u8>::empty());
    assert(levels_view(parts@).push(current@) =~= levels(topic@.subrange(0, 0)));
    while i < n
        invariant
            n == topic@.len(),
            i <= n,
            levels_view(parts@).push(current@) == levels(topic@.subrange(0, i as int)),
        decreases n - i,
    {
        let ghost done = topic@.subrange(0, i as int);
        let ghost next = topic@.subrange(0, i + 1);
        let ghost old_parts = parts@;
        let ghost old_current = current@;
        assert(next.drop_last() =~= done);
        assert(next.last() == topic@[i as int]);
        if topic[i] == SLASH {
            parts.push(current);
            current = Vec::new();
            assert(levels_view(parts@).push(current@) =~= levels_view(old_parts).push(
                old_current,
            ).push(Seq::empty()));
        } else {
            current.push(topic[i]);
            let ghost before = levels_view(old_parts).push(old_current);
            assert(levels_view(parts@).push(current@) =~= before.update(
                before.len() - 1,
                before.last().push(topic@[i as int]),
            ));
        }
        i += 1;
    }
    assert(topic@.subrange(0, n as int) =~= topic@);
    let ghost old_parts = parts@;
    parts.push(current);
    assert(levels_view(parts@) =~= levels_view(old_parts).push(current@));
    parts
}

/// The value of a run of digits does not shrink when more digits follow.
pub proof fn lemma_digits_value_grows(s: Seq<u8>, n: int)
    requires
        0 <= n <= s.len(),
        all_digits(s),
    ensures
        digits_value(s.subrange(0, n)) <= digits_value(s),
    decreases s.len() - n,
{
    if n < s.len() {
        lemma_digits_value_grows(s.drop_last(), n);
        assert(s.drop_last().subrange(0, n) =~= s.subrange(0, n));
    } else {
        assert(s.subrange(0, n) =~= s);
    }
}

/// Reads a byte written in decimal.
pub fn parse_number(text: &[u8]) -> (r: Option<u8>)
    ensures
        r == number(text@),
{
    let n: usize = text.len();
    let start: usize = if n > 0 && text[0] == PLUS {
        1
    } else {
        0
    };
    let ghost digits = if start == 1 {
        text@.skip(1)
    } else {
        text@
    };
    if start == n {
        return None;
    }
    let mut value: u16 = 0;
    let mut i: usize = start;
    assert(digits.subrange(0, 0) =~= Seq::<u8>::empty());
    while i < n
        invariant
            n == text@.len(),
            start <= i <= n,
            start < n,
            digits.len() == n - start,
            digits == if text@.len() > 0 && text@[0] == PLUS {
                text@.skip(1)
            } else {
                text@
            },
            start == if text@.len() > 0 && text@[0] == PLUS {
                1int
            } else {
                0int
            },
            all_digits(digits.subrange(0, i - start)),
            value == digits_value(digits.subrange(0, i - start)),
            value <= 255,
        decreases n - i,
    {
        let b: u8 = text[i];
        assert(digits[i - start] == b);
        let ghost done = digits.subrange(0, i - start);
        let ghost next = digits.subrange(0, i - start + 1);
        assert(next.drop_last() =~= done);
        assert(next.last() == b);
        if b < 0x30 || b > 0x39 {
            assert(!is_digit(digits[i - start]));
            return None;
        }
        value = value * 10 + (b - 0x30) as u16;
        assert(all_digits(next)) by {
            assert forall|k: int| 0 <= k < next.len() implies is_digit(#[trigger] next[k]) by {
                if k < done.len() {
                    assert(next[k] == done[k]);
                }
            }
        }
        if value > 255 {
            proof {
                if all_digits(digits) {
                    lemma_digits_value_grows(digits, i - start + 1);
                }
            }
            return None;
        }
        i += 1;
    }
    assert(digits.subrange(0, n - start) =~= digits);
    Some(value as u8)
}

/// Tells whether two runs of bytes are the same.
pub fn same_bytes(a: &[u8], b: &[u8]) -> (same: bool)
    ensures
        same == (a@ == b@),
{
    if a.len() != b.len() {
        return false;
    }
    let n: usize = a.len();
    let mut i: usize = 0;
    while i < n
        invariant
            n == a@.len(),
            n == b@.len(),
            i <= n,
            forall|k: int| 0 <= k < i ==> a@[k] == b@[k],
        decreases n - i,
    {
        if a[i] != b[i] {
            return false;
        }
        i += 1;
    }
    assert(a@ =~= b@);
    true
}

impl Incoming {
    /// Reads the command that a publication stands for. A publication on any
    /// other topic than that of an output's commands stands for none.
    pub fn from_publish(topic: &str, payload: &[u8]) -> (r: Option<Incoming>)
        ensures
            command_view(r) == command_of(topic.spec_bytes(), payload@),
            r is None <==> command_of(topic.spec_bytes(), payload@) is None,
            r matches Some(command) ==> command is SetOutput,
    {
        let parts = split_levels(topic.as_bytes());
        if parts.len() != 5 {
            return None;
        }
        assert(levels(topic.spec_bytes())[0] == parts@[0]@);
        assert(levels(topic.spec_bytes())[1] == parts@[1]@);
        assert(levels(topic.spec_bytes())[2] == parts@[2]@);
        assert(levels(topic.spec_bytes())[3] == parts@[3]@);
        assert(levels(topic.spec_bytes())[4] == parts@[4]@);
        if !same_bytes(parts[0].as_slice(), HA_CONTROL_TOPIC.as_bytes()) {
            return None;
        }
        if !same_bytes(parts[2].as_slice(), "switch".as_bytes()) {
            return None;
        }
        if !same_bytes(parts[4].as_slice(), "set".as_bytes()) {
            return None;
        }
        let device = match parse_number(parts[1].as_slice()) {
            Some(device) => device,
            None => {
                return None;
            },
        };
        let output = match parse_number(parts[3].as_slice()) {
            Some(output) => output,
            None => {
                return None;
            },
        };
        let on = same_bytes(payload, "ON".as_bytes());
        Some(Incoming::SetOutput { device, output, on })
    }
}

/// How sure the broker is to be that a message arrives.
#[derive(Debug, Clone, Copy, PartialEq, Eq, Structural)]
pub enum Delivery {
    AtMostOnce,
    AtLeastOnce,
}

/// What is asked of the broker.
#[derive(Debug)]
pub enum Request {
    /// Listen on a topic.
    Subscribe { topic: String },
    /// Publish bytes on a topic, not retained.
    Publish { topic: String, payload: Vec<u8> },
    /// Publish a document on a topic, not retained, written out as text.
    PublishDocument { topic: String, document: Discovery },
}

/// What a request to the broker says.
pub enum RequestText {
    Subscribe { topic: Seq<char> },
    Publish { topic: Seq<char>, payload: Seq<u8> },
    PublishDocument { topic: Seq<char>, document: DiscoveryText },
}

impl View for Request {
    type V = RequestText;

    open spec fn view(&self) -> RequestText {
        match self {
            Request::Subscribe { topic } => RequestText::Subscribe { topic: topic@ },
            Request::Publish { topic, payload } => RequestText::Publish {
                topic: topic@,
                payload: payload@,
            },
            Request::PublishDocument { topic, document } => RequestText::PublishDocument {
                topic: topic@,
                document: document@,
            },
        }
    }
}

/// The topic on which the document of a device is published:
/// `<discovery prefix>/device/<identifier>/config`.
pub open spec fn discovery_topic(identifier: Seq<char>) -> Seq<char> {
    HA_DISCOVERY_TOPIC@ + "/device/"@ + identifier + "/config"@
}

/// A message can be sent: a document names the device that it announces.
pub open spec fn sendable(command: OutgoingText) -> bool {
    command matches OutgoingText::DiscoveryDevice(document) ==> document.identifiers.len() > 0
}

/// What is asked of the broker for a message to the home-automation side.
pub open spec fn request_of(command: OutgoingText) -> RequestText {
    match command {
        OutgoingText::Subscribe(topic) => RequestText::Subscribe { topic },
        OutgoingText::Initial => RequestText::Publish {
            topic: "smartenough/status"@,
            payload: "daemon started".spec_bytes(),
        },
        OutgoingText::RawTest(raw) => RequestText::Publish {
            topic: "hello/rumqtt"@,
            payload: raw,
        },
        OutgoingText::DiscoveryDevice(document) => RequestText::PublishDocument {
            topic: discovery_topic(document.identifiers[0]),
            document,
        },
        OutgoingText::OutputChanged { device, output, on } => RequestText::Publish {
            topic: state_topic(device, output),
            payload: if on {
                "ON".spec_bytes()
            } else {
                "OFF".spec_bytes()
            },
        },
    }
}

impl Request {
    /// How sure the broker is to be: listening is asked for at most once,
    /// every publication at least once.
    pub open spec fn spec_delivery(&self) -> Delivery {
        match self {
            Request::Subscribe { .. } => Delivery::AtMostOnce,
            _ => Delivery::AtLeastOnce,
        }
    }

    /// How sure the broker is to be that this request arrives.
    #[verifier::when_used_as_spec(spec_delivery)]
    pub fn delivery(&self) -> (d: Delivery)
        ensures
            d == self.delivery(),
    {
        match self {
            Request::Subscribe { .. } => Delivery::AtMostOnce,
            _ => Delivery::AtLeastOnce,
        }
    }

    /// Decides what is asked of the broker for a message to the
    /// home-automation side.
    pub fn of(command: Outgoing) -> (request: Request)
        requires
            sendable(command@),
        ensures
            request@ == request_of(command@),
    {
        match command {
            Outgoing::Subscribe(topic) => Request::Subscribe { topic },
            Outgoing::Initial => Request::Publish {
                topic: String::from_str("smartenough/status"),
                payload: "daemon started".as_bytes_vec(),
            },
            Outgoing::RawTest(raw) => Request::Publish {
                topic: String::from_str("hello/rumqtt"),
                payload: raw,
            },
            Outgoing::DiscoveryDevice(document) => {
                assert(document@.identifiers[0] == document.device.identifiers@[0]@);
                let mut topic = String::from_str(HA_DISCOVERY_TOPIC);
                topic.append("/device/");
                topic.append(document.device.identifiers[0].as_str());
                topic.append("/config");
                Request::PublishDocument { topic, document }
            },
            Outgoing::OutputChanged { device, output, on } => {
                let payload = if on {
                    "ON".as_bytes_vec()
                } else {
                    "OFF".as_bytes_vec()
                };
                Request::Publish { topic: switch_topic(device, output, "/state"), payload }
            },
        }
    }
}

} // verus!
