//! How the topics that are announced and the topics that are understood fit together.

use vstd::prelude::*;
use vstd::string::*;
use vstd::utf8::{encode_utf8, is_ascii_chars, is_ascii_chars_encode_utf8};

use crate::consts::HA_CONTROL_TOPIC;
use crate::homeassistant::connection::{
    all_digits, command_of, digits_value, is_digit, levels, number, PLUS, SLASH,
};
use crate::config::{labels_distinct, DeviceConfig};
use crate::homeassistant::discovery::{
    command_topic, device_text, input_kept, label_announced, output_kept, sensors_of,
    state_topic, switch_text, switches_of,
};
use crate::homeassistant::text::{decimal, digit_char};

verus! {

/// The bytes of a text of ASCII characters: one byte for each character.
pub open spec fn ascii_bytes(chars: Seq<char>) -> Seq<u8> {
    Seq::new(chars.len(), |i: int| chars[i] as u8)
}

/// A text of ASCII characters is encoded as one byte for each character.
pub proof fn lemma_ascii_encoding(chars: Seq<char>)
    requires
        is_ascii_chars(chars),
    ensures
        encode_utf8(chars) == ascii_bytes(chars),
{
    is_ascii_chars_encode_utf8(chars);
    assert(encode_utf8(chars) =~= ascii_bytes(chars));
}

/// A byte written in decimal is read back as that byte.
pub proof fn lemma_decimal_is_read_back(n: u8)
    ensures
        is_ascii_chars(decimal(n)),
        1 <= decimal(n).len() <= 3,
        all_digits(ascii_bytes(decimal(n))),
        number(ascii_bytes(decimal(n))) == Some(n),
{
    let b = ascii_bytes(decimal(n));
    assert forall|d: int| 0 <= d <= 9 implies digit_char(d) as u8 == 0x30 + d by {}
    assert(all_digits(b)) by {
        assert forall|i: int| 0 <= i < b.len() implies is_digit(#[trigger] b[i]) by {}
    }
    assert(b[0] != PLUS);
    reveal_with_fuel(digits_value, 4);
    if n < 10 {
        assert(b.drop_last() =~= Seq::<u8>::empty());
        assert(digits_value(b) == n);
    } else if n < 100 {
        assert(b.drop_last().drop_last() =~= Seq::<u8>::empty());
        assert(digits_value(b.drop_last()) == n / 10);
        assert(digits_value(b) == n);
    } else {
        assert(b.drop_last().drop_last().drop_last() =~= Seq::<u8>::empty());
        assert(digits_value(b.drop_last().drop_last()) == n / 100);
        assert(digits_value(b.drop_last()) == n / 10);
        assert(digits_value(b) == n);
    }
}

/// A topic has at least one level.
pub proof fn lemma_levels_nonempty(topic: Seq<u8>)
    ensures
        levels(topic).len() >= 1,
    decreases topic.len(),
{
    if topic.len() > 0 {
        lemma_levels_nonempty(topic.drop_last());
    }
}

/// A slash opens a new, empty level.
pub proof fn lemma_levels_slash(topic: Seq<u8>)
    ensures
        levels(topic.push(SLASH)) == levels(topic).push(Seq::empty()),
{
    assert(topic.push(SLASH).drop_last() =~= topic);
}

/// Bytes other than a slash lengthen the last level.
pub proof fn lemma_levels_segment(topic: Seq<u8>, segment: Seq<u8>)
    requires
        forall|i: int| 0 <= i < segment.len() ==> segment[i] != SLASH,
    ensures
        levels(topic).len() >= 1,
        levels(topic + segment) == levels(topic).update(
            levels(topic).len() - 1,
            levels(topic).last() + segment,
        ),
    decreases segment.len(),
{
    lemma_levels_nonempty(topic);
    let before = levels(topic);
    if segment.len() == 0 {
        assert(topic + segment =~= topic);
        assert(before.last() + segment =~= before.last());
        assert(before.update(before.len() - 1, before.last()) =~= before);
    } else {
        let shorter = segment.drop_last();
        lemma_levels_segment(topic, shorter);
        assert((topic + segment).drop_last() =~= topic + shorter);
        assert((topic + segment).last() == segment.last());
        let mid = levels(topic + shorter);
        assert(mid.last() == before.last() + shorter);
        assert((before.last() + shorter).push(segment.last()) =~= before.last() + segment);
        assert(mid.update(mid.len() - 1, mid.last().push(segment.last())) =~= before.update(
            before.len() - 1,
            before.last() + segment,
        ));
    }
}

/// After a slash, bytes other than a slash make up the next level.
pub proof fn lemma_levels_next(topic: Seq<u8>, segment: Seq<u8>)
    requires
        forall|i: int| 0 <= i < segment.len() ==> segment[i] != SLASH,
    ensures
        levels(topic.push(SLASH) + segment) == levels(topic).push(segment),
{
    lemma_levels_slash(topic);
    lemma_levels_segment(topic.push(SLASH), segment);
    let opened = levels(topic).push(Seq::<u8>::empty());
    assert(opened.last() + segment =~= segment);
    assert(opened.update(opened.len() - 1, segment) =~= levels(topic).push(segment));
}

/// The levels of `<prefix>/<device>/switch/<output>/<last>`, where `last`
/// holds no slash.
proof fn lemma_switch_topic_levels(device: u8, output: u8, last: Seq<char>)
    requires
        is_ascii_chars(last),
        forall|i: int| 0 <= i < last.len() ==> last[i] != '/',
    ensures
        levels(
            encode_utf8(
                HA_CONTROL_TOPIC@ + "/"@ + decimal(device) + "/switch/"@ + decimal(output) + "/"@
                    + last,
            ),
        ) == seq![
            HA_CONTROL_TOPIC.spec_bytes(),
            ascii_bytes(decimal(device)),
            "switch".spec_bytes(),
            ascii_bytes(decimal(output)),
            ascii_bytes(last),
        ],
{
    reveal_strlit("smartenough");
    reveal_strlit("/");
    reveal_strlit("/switch/");
    reveal_strlit("switch");
    let prefix = HA_CONTROL_TOPIC@;
    let middle = "switch"@;
    let whole = prefix + "/"@ + decimal(device) + "/switch/"@ + decimal(output) + "/"@ + last;
    lemma_decimal_is_read_back(device);
    lemma_decimal_is_read_back(output);
    assert(is_ascii_chars(prefix));
    assert(is_ascii_chars(middle));
    assert(is_ascii_chars(whole));
    lemma_ascii_encoding(whole);
    lemma_ascii_encoding(prefix);
    lemma_ascii_encoding(middle);
    let p = ascii_bytes(prefix);
    let d = ascii_bytes(decimal(device));
    let m = ascii_bytes(middle);
    let o = ascii_bytes(decimal(output));
    let l = ascii_bytes(last);
    assert forall|d: int| 0 <= d <= 9 implies digit_char(d) as u8 == 0x30 + d by {}
    let t1 = Seq::<u8>::empty() + p;
    let t2 = t1.push(SLASH) + d;
    let t3 = t2.push(SLASH) + m;
    let t4 = t3.push(SLASH) + o;
    let t5 = t4.push(SLASH) + l;
    assert(ascii_bytes(whole) =~= t5);
    lemma_levels_segment(Seq::<u8>::empty(), p);
    assert(levels(Seq::<u8>::empty()) =~= seq![Seq::<u8>::empty()]);
    assert(Seq::<u8>::empty() + p =~= p);
    assert(levels(t1) =~= seq![p]);
    lemma_levels_next(t1, d);
    lemma_levels_next(t2, m);
    lemma_levels_next(t3, o);
    lemma_levels_next(t4, l);
    assert(levels(t5) =~= seq![p, d, m, o, l]);
}

/// The topic that is announced for the commands of an output is understood
/// as a command to that output of that device: switch on for the payload
/// `ON`, switch off for any other.
pub proof fn lemma_command_topic_is_understood(device: u8, output: u8, payload: Seq<u8>)
    ensures
        command_of(encode_utf8(command_topic(device, output)), payload) == Some(
            (device, output, payload == "ON".spec_bytes()),
        ),
{
    reveal_strlit("set");
    reveal_strlit("/set");
    reveal_strlit("/");
    let last = "set"@;
    lemma_switch_topic_levels(device, output, last);
    lemma_ascii_encoding(last);
    lemma_decimal_is_read_back(device);
    lemma_decimal_is_read_back(output);
    assert(command_topic(device, output) =~= HA_CONTROL_TOPIC@ + "/"@ + decimal(device)
        + "/switch/"@ + decimal(output) + "/"@ + last);
}

/// The topic on which a state is reported is not taken for a command.
pub proof fn lemma_state_topic_is_no_command(device: u8, output: u8, payload: Seq<u8>)
    ensures
        command_of(encode_utf8(state_topic(device, output)), payload) is None,
{
    reveal_strlit("set");
    reveal_strlit("state");
    reveal_strlit("/state");
    reveal_strlit("/");
    let last = "state"@;
    lemma_switch_topic_levels(device, output, last);
    lemma_ascii_encoding(last);
    lemma_ascii_encoding("set"@);
    assert(state_topic(device, output) =~= HA_CONTROL_TOPIC@ + "/"@ + decimal(device)
        + "/switch/"@ + decimal(output) + "/"@ + last);
    assert(ascii_bytes(last).len() != ascii_bytes("set"@).len());
}

/// A switch takes its commands on the topic that is understood as a command
/// to its output.
pub proof fn lemma_switch_is_reachable(
    name: Seq<char>,
    device: u8,
    output: u8,
    class: Option<Seq<char>>,
    payload: Seq<u8>,
)
    ensures
        switch_text(name, device, output, class).command_topic matches Some(topic) && command_of(
            encode_utf8(topic),
            payload,
        ) == Some((device, output, payload == "ON".spec_bytes())),
{
    lemma_command_topic_is_understood(device, output, payload);
}

/// A label is that of an announced input among the first `n`.
#[verifier::opaque]
pub open spec fn input_announced(config: DeviceConfig, n: int, label: Seq<char>) -> bool {
    exists|k: int| 0 <= k < n && input_kept(config, k) && (#[trigger] config.inputs@[k]).0@ == label
}

/// Every switch of the first `n` outputs goes under the label of an
/// announced output among them, and no two go under one label.
pub proof fn lemma_switch_labels(config: DeviceConfig, n: int)
    requires
        0 <= n <= config.outputs@.len(),
        labels_distinct(config.outputs@),
    ensures
        forall|i: int|
            0 <= i < switches_of(config, n).len() ==> label_announced(
                config.outputs@,
                n,
                (#[trigger] switches_of(config, n)[i]).0,
            ),
        forall|i: int, j: int|
            0 <= i < j < switches_of(config, n).len() ==> (#[trigger] switches_of(config, n)[i]).0
                != (#[trigger] switches_of(config, n)[j]).0,
    decreases n,
{
    reveal(label_announced);
    let now = switches_of(config, n);
    if n > 0 {
        lemma_switch_labels(config, n - 1);
        let before = switches_of(config, n - 1);
        assert forall|i: int| 0 <= i < now.len() implies label_announced(
            config.outputs@,
            n,
            (#[trigger] now[i]).0,
        ) by {
            if i < before.len() {
                assert(now[i] == before[i]);
                assert(label_announced(config.outputs@, n - 1, before[i].0));
                let k = choose|k: int|
                    0 <= k < n - 1 && output_kept(config.outputs@, k) && (
                    #[trigger] config.outputs@[k]).0@ == before[i].0;
                assert(0 <= k < n && config.outputs@[k].0@ == now[i].0);
            } else {
                assert(config.outputs@[n - 1].0@ == now[i].0);
            }
        }
        assert forall|i: int, j: int| 0 <= i < j < now.len() implies (#[trigger] now[i]).0 != (
        #[trigger] now[j]).0 by {
            assert(now[i] == before[i]);
            if j < before.len() {
                assert(now[j] == before[j]);
            } else {
                assert(label_announced(config.outputs@, n - 1, before[i].0));
                let k = choose|k: int|
                    0 <= k < n - 1 && output_kept(config.outputs@, k) && (
                    #[trigger] config.outputs@[k]).0@ == before[i].0;
                assert(config.outputs@[k].0@ != config.outputs@[n - 1].0@);
            }
        }
    } else {
        assert(now.len() == 0);
    }
}

/// Every binary sensor of the first `n` inputs goes under the label of an
/// announced input among them, and no two go under one label.
pub proof fn lemma_sensor_labels(config: DeviceConfig, n: int)
    requires
        0 <= n <= config.inputs@.len(),
        labels_distinct(config.inputs@),
    ensures
        forall|i: int|
            0 <= i < sensors_of(config, n).len() ==> input_announced(
                config,
                n,
                (#[trigger] sensors_of(config, n)[i]).0,
            ),
        forall|i: int, j: int|
            0 <= i < j < sensors_of(config, n).len() ==> (#[trigger] sensors_of(config, n)[i]).0
                != (#[trigger] sensors_of(config, n)[j]).0,
    decreases n,
{
    reveal(input_announced);
    let now = sensors_of(config, n);
    if n > 0 {
        lemma_sensor_labels(config, n - 1);
        let before = sensors_of(config, n - 1);
        assert forall|i: int| 0 <= i < now.len() implies input_announced(
            config,
            n,
            (#[trigger] now[i]).0,
        ) by {
            if i < before.len() {
                assert(now[i] == before[i]);
                assert(input_announced(config, n - 1, before[i].0));
                let k = choose|k: int|
                    0 <= k < n - 1 && input_kept(config, k) && (#[trigger] config.inputs@[k]).0@
                        == before[i].0;
                assert(0 <= k < n && config.inputs@[k].0@ == now[i].0);
            } else {
                assert(config.inputs@[n - 1].0@ == now[i].0);
            }
        }
        assert forall|i: int, j: int| 0 <= i < j < now.len() implies (#[trigger] now[i]).0 != (
        #[trigger] now[j]).0 by {
            assert(now[i] == before[i]);
            if j < before.len() {
                assert(now[j] == before[j]);
            } else {
                assert(input_announced(config, n - 1, before[i].0));
                let k = choose|k: int|
                    0 <= k < n - 1 && input_kept(config, k) && (#[trigger] config.inputs@[k]).0@
                        == before[i].0;
                assert(config.inputs@[k].0@ != config.inputs@[n - 1].0@);
            }
        }
    } else {
        assert(now.len() == 0);
    }
}

/// The document of a well-formed device holds each label once.
pub proof fn lemma_document_labels_distinct(name: Seq<char>, config: DeviceConfig)
    requires
        config.wf(),
    ensures
        forall|i: int, j: int|
            0 <= i < j < device_text(name, config).components.len() ==> (#[trigger] device_text(
                name,
                config,
            ).components[i]).0 != (#[trigger] device_text(name, config).components[j]).0,
{
    let n_out = config.outputs@.len() as int;
    let n_in = config.inputs@.len() as int;
    let switches = switches_of(config, n_out);
    let sensors = sensors_of(config, n_in);
    let all = device_text(name, config).components;
    lemma_switch_labels(config, n_out);
    lemma_sensor_labels(config, n_in);
    assert forall|i: int, j: int| 0 <= i < j < all.len() implies (#[trigger] all[i]).0 != (
    #[trigger] all[j]).0 by {
        if j < switches.len() {
            assert(all[i] == switches[i] && all[j] == switches[j]);
        } else if i >= switches.len() {
            assert(all[i] == sensors[i - switches.len()]);
            assert(all[j] == sensors[j - switches.len()]);
        } else {
            assert(all[i] == switches[i]);
            assert(all[j] == sensors[j - switches.len()]);
            reveal(label_announced);
            reveal(input_announced);
            assert(label_announced(config.outputs@, n_out, switches[i].0));
            assert(input_announced(config, n_in, sensors[j - switches.len()].0));
            let k = choose|k: int|
                0 <= k < n_out && output_kept(config.outputs@, k) && (
                #[trigger] config.outputs@[k]).0@ == switches[i].0;
            let m = choose|m: int|
                0 <= m < n_in && input_kept(config, m) && (#[trigger] config.inputs@[m]).0@
                    == sensors[j - switches.len()].0;
            assert(config.outputs@[k].0@ != config.inputs@[m].0@);
        }
    }
}

} // verus!
