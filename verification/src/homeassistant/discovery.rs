//! The document by which a device and its inputs and outputs are announced.
//!
//! A document goes to `<discovery prefix>/device/<identifier>/config`. Each
//! output appears in it as a switch, each input as a binary sensor.

use vstd::prelude::*;
use vstd::string::*;

use crate::config::{DeviceConfig, IOConfig};
use crate::consts::{GATE_NAME, GATE_URL, GATE_VERSION, HA_CONTROL_TOPIC};
use crate::homeassistant::laws::lemma_document_labels_distinct;
use crate::homeassistant::text::{decimal, push_decimal};

verus! {

/// Who a device is.
#[derive(Debug, Default)]
pub struct DeviceId {
    pub name: String,
    /// What tells the device from every other: its bus address, as text.
    pub identifiers: Vec<String>,
    pub manufacturer: String,
}

/// The software that announces the device: this gateway.
#[derive(Debug, Default)]
pub struct Origin {
    pub name: String,
    pub sw_version: String,
    pub support_url: String,
}

/// One input or output of a device, as the document shows it.
#[derive(Debug)]
pub struct Component {
    pub name: String,
    pub platform: String,
    /// Chooses the icon: an outlet, a switch, and so on.
    pub device_class: Option<String>,
    pub unique_id: String,
    pub command_topic: Option<String>,
    pub state_topic: String,
}

/// The document that announces one device.
#[derive(Debug)]
pub struct Discovery {
    pub device: DeviceId,
    pub origin: Origin,
    /// The components of the device, each under its label.
    pub components: Vec<(String, Component)>,
}

impl Discovery {
    /// No label occurs twice among the components.
    pub open spec fn wf(&self) -> bool {
        forall|i: int, j: int|
            0 <= i < j < self.components@.len() ==> (#[trigger] self.components@[i]).0@ != (
            #[trigger] self.components@[j]).0@
    }
}

/// What a component says.
pub struct ComponentText {
    pub name: Seq<char>,
    pub platform: Seq<char>,
    pub device_class: Option<Seq<char>>,
    pub unique_id: Seq<char>,
    pub command_topic: Option<Seq<char>>,
    pub state_topic: Seq<char>,
}

/// What a document says.
pub struct DiscoveryText {
    pub device_name: Seq<char>,
    pub identifiers: Seq<Seq<char>>,
    pub manufacturer: Seq<char>,
    pub origin_name: Seq<char>,
    pub sw_version: Seq<char>,
    pub support_url: Seq<char>,
    pub components: Seq<(Seq<char>, ComponentText)>,
}

/// What an optional text says.
pub open spec fn text_of(s: Option<String>) -> Option<Seq<char>> {
    match s {
        Some(s) => Some(s@),
        None => None,
    }
}

impl View for Component {
    type V = ComponentText;

    open spec fn view(&self) -> ComponentText {
        ComponentText {
            name: self.name@,
            platform: self.platform@,
            device_class: text_of(self.device_class),
            unique_id: self.unique_id@,
            command_topic: text_of(self.command_topic),
            state_topic: self.state_topic@,
        }
    }
}

impl View for Discovery {
    type V = DiscoveryText;

    open spec fn view(&self) -> DiscoveryText {
        DiscoveryText {
            device_name: self.device.name@,
            identifiers: Seq::new(self.device.identifiers@.len(), |i: int| self.device.identifiers@[i]@),
            manufacturer: self.device.manufacturer@,
            origin_name: self.origin.name@,
            sw_version: self.origin.sw_version@,
            support_url: self.origin.support_url@,
            components: Seq::new(
                self.components@.len(),
                |i: int| (self.components@[i].0@, self.components@[i].1@),
            ),
        }
    }
}

/// The topic on which a device reports the state of an input or output:
/// `<control prefix>/<device>/switch/<index>/state`.
pub open spec fn state_topic(device_addr: u8, idx: u8) -> Seq<char> {
    HA_CONTROL_TOPIC@ + "/"@ + decimal(device_addr) + "/switch/"@ + decimal(idx) + "/state"@
}

/// The topic on which an output takes commands:
/// `<control prefix>/<device>/switch/<index>/set`.
pub open spec fn command_topic(device_addr: u8, idx: u8) -> Seq<char> {
    HA_CONTROL_TOPIC@ + "/"@ + decimal(device_addr) + "/switch/"@ + decimal(idx) + "/set"@
}

/// The switch that stands for an output. Its class is `switch` unless one is given.
pub open spec fn switch_text(
    name: Seq<char>,
    device_addr: u8,
    idx: u8,
    device_class: Option<Seq<char>>,
) -> ComponentText {
    ComponentText {
        name,
        platform: "switch"@,
        device_class: Some(
            match device_class {
                Some(class) => class,
                None => "switch"@,
            },
        ),
        unique_id: "io-gate-"@ + decimal(device_addr) + "-"@ + decimal(idx),
        command_topic: Some(command_topic(device_addr, idx)),
        state_topic: state_topic(device_addr, idx),
    }
}

/// The binary sensor that stands for an input. It takes no commands.
pub open spec fn input_text(
    name: Seq<char>,
    device_addr: u8,
    idx: u8,
    device_class: Option<Seq<char>>,
) -> ComponentText {
    ComponentText {
        name,
        platform: "binary_sensor"@,
        device_class,
        unique_id: "io-gate-in-"@ + decimal(device_addr) + "-"@ + decimal(idx),
        command_topic: None,
        state_topic: state_topic(device_addr, idx),
    }
}

/// Builds `<control prefix>/<device>/switch/<index>` followed by `last`.
pub(crate) fn switch_topic(device_addr: u8, idx: u8, last: &str) -> (topic: String)
    ensures
        topic@ == HA_CONTROL_TOPIC@ + "/"@ + decimal(device_addr) + "/switch/"@ + decimal(idx) + last@,
{
    let mut topic = String::from_str(HA_CONTROL_TOPIC);
    topic.append("/");
    push_decimal(&mut topic, device_addr);
    topic.append("/switch/");
    push_decimal(&mut topic, idx);
    topic.append(last);
    topic
}

/// Builds `prefix`, the device address, a hyphen and the index.
fn component_id(prefix: &str, device_addr: u8, idx: u8) -> (id: String)
    ensures
        id@ == prefix@ + decimal(device_addr) + "-"@ + decimal(idx),
{
    let mut id = String::from_str(prefix);
    push_decimal(&mut id, device_addr);
    id.append("-");
    push_decimal(&mut id, idx);
    id
}

impl Component {
    pub fn new_switch(name: &str, device_addr: u8, idx: u8, device_class: Option<String>) -> (c:
        Self)
        ensures
            c@ == switch_text(name@, device_addr, idx, text_of(device_class)),
    {
        let class = match device_class {
            Some(class) => class,
            None => String::from_str("switch"),
        };
        Self {
            name: String::from_str(name),
            platform: String::from_str("switch"),
            device_class: Some(class),
            unique_id: component_id("io-gate-", device_addr, idx),
            command_topic: Some(switch_topic(device_addr, idx, "/set")),
            state_topic: switch_topic(device_addr, idx, "/state"),
        }
    }

    pub fn new_input(name: &str, device_addr: u8, idx: u8, device_class: Option<String>) -> (c:
        Self)
        ensures
            c@ == input_text(name@, device_addr, idx, text_of(device_class)),
    {
        Self {
            name: String::from_str(name),
            platform: String::from_str("binary_sensor"),
            device_class,
            unique_id: component_id("io-gate-in-", device_addr, idx),
            command_topic: None,
            state_topic: switch_topic(device_addr, idx, "/state"),
        }
    }
}

/// An output is announced unless an earlier output of the device has its index.
pub open spec fn output_kept(outputs: Seq<(String, IOConfig)>, j: int) -> bool {
    forall|k: int| 0 <= k < j ==> (#[trigger] outputs[k]).1.id != outputs[j].1.id
}

/// An input is announced unless an announced output has its label.
pub open spec fn input_kept(config: DeviceConfig, j: int) -> bool {
    forall|k: int|
        0 <= k < config.outputs@.len() && output_kept(config.outputs@, k) ==> (
        #[trigger] config.outputs@[k]).0@ != config.inputs@[j].0@
}

/// The switches announced for the first `n` outputs of a device, in their order.
pub open spec fn switches_of(config: DeviceConfig, n: int) -> Seq<(Seq<char>, ComponentText)>
    decreases n,
{
    if n <= 0 {
        Seq::empty()
    } else {
        let before = switches_of(config, n - 1);
        let label = config.outputs@[n - 1].0@;
        let idx = config.outputs@[n - 1].1.id;
        if output_kept(config.outputs@, n - 1) {
            before.push((label, switch_text(label, config.addr, idx, None)))
        } else {
            before
        }
    }
}

/// The binary sensors announced for the first `n` inputs of a device, in their order.
pub open spec fn sensors_of(config: DeviceConfig, n: int) -> Seq<(Seq<char>, ComponentText)>
    decreases n,
{
    if n <= 0 {
        Seq::empty()
    } else {
        let before = sensors_of(config, n - 1);
        let label = config.inputs@[n - 1].0@;
        let idx = config.inputs@[n - 1].1.id;
        if input_kept(config, n - 1) {
            before.push((label, input_text(label, config.addr, idx, None)))
        } else {
            before
        }
    }
}

/// The document that announces a device: who it is, who announces it, then
/// its switches and its binary sensors.
pub open spec fn device_text(name: Seq<char>, config: DeviceConfig) -> DiscoveryText {
    DiscoveryText {
        device_name: name,
        identifiers: seq!["gate-"@ + decimal(config.addr)],
        manufacturer: "smartenough"@,
        origin_name: GATE_NAME@,
        sw_version: GATE_VERSION@,
        support_url: GATE_URL@,
        components: switches_of(config, config.outputs@.len() as int) + sensors_of(
            config,
            config.inputs@.len() as int,
        ),
    }
}

/// What a list of components says.
pub open spec fn components_text(components: Seq<(String, Component)>) -> Seq<
    (Seq<char>, ComponentText),
> {
    Seq::new(components.len(), |i: int| (components[i].0@, components[i].1@))
}

/// An index is that of one of the first `n` outputs.
#[verifier::opaque]
spec fn id_seen(outputs: Seq<(String, IOConfig)>, n: int, id: u8) -> bool {
    exists|k: int| 0 <= k < n && (#[trigger] outputs[k]).1.id == id
}

/// A label is that of an announced output among the first `n`.
#[verifier::opaque]
pub open spec fn label_announced(outputs: Seq<(String, IOConfig)>, n: int, label: Seq<char>) -> bool {
    exists|k: int| 0 <= k < n && output_kept(outputs, k) && (#[trigger] outputs[k]).0@ == label
}

/// A label is in a list.
#[verifier::opaque]
spec fn has_label(labels: Seq<String>, label: Seq<char>) -> bool {
    exists|m: int| 0 <= m < labels.len() && (#[trigger] labels[m])@ == label
}

/// The indices seen grow by one output at a time, and an output is
/// announced exactly when its index has not been seen before it.
proof fn lemma_id_seen_step(outputs: Seq<(String, IOConfig)>, n: int, id: u8)
    requires
        0 <= n < outputs.len(),
    ensures
        !id_seen(outputs, 0, id),
        id_seen(outputs, n + 1, id) == (id_seen(outputs, n, id) || outputs[n].1.id == id),
        output_kept(outputs, n) == !id_seen(outputs, n, outputs[n].1.id),
{
    reveal(id_seen);
    if id_seen(outputs, n, id) {
        let k = choose|k: int| 0 <= k < n && (#[trigger] outputs[k]).1.id == id;
        assert(0 <= k < n + 1 && outputs[k].1.id == id);
    }
    if outputs[n].1.id == id {
        assert(0 <= n < n + 1 && outputs[n].1.id == id);
    }
    if !output_kept(outputs, n) {
        let k = choose|k: int| 0 <= k < n && (#[trigger] outputs[k]).1.id == outputs[n].1.id;
        assert(id_seen(outputs, n, outputs[n].1.id));
    }
}

/// The labels taken grow by one announced output at a time.
proof fn lemma_label_announced_step(outputs: Seq<(String, IOConfig)>, n: int, label: Seq<char>)
    requires
        0 <= n < outputs.len(),
    ensures
        !label_announced(outputs, 0, label),
        label_announced(outputs, n + 1, label) == (label_announced(outputs, n, label) || (
        output_kept(outputs, n) && outputs[n].0@ == label)),
{
    reveal(label_announced);
    if label_announced(outputs, n, label) {
        let k = choose|k: int|
            0 <= k < n && output_kept(outputs, k) && (#[trigger] outputs[k]).0@ == label;
        assert(0 <= k < n + 1 && output_kept(outputs, k) && outputs[k].0@ == label);
    }
    if output_kept(outputs, n) && outputs[n].0@ == label {
        assert(0 <= n < n + 1 && output_kept(outputs, n) && outputs[n].0@ == label);
    }
}

/// An input is announced exactly when no announced output has taken its label.
proof fn lemma_input_kept(config: DeviceConfig, j: int)
    ensures
        input_kept(config, j) == !label_announced(
            config.outputs@,
            config.outputs@.len() as int,
            config.inputs@[j].0@,
        ),
{
    reveal(label_announced);
    if !input_kept(config, j) {
        let k = choose|k: int|
            0 <= k < config.outputs@.len() && output_kept(config.outputs@, k) && (
            #[trigger] config.outputs@[k]).0@ == config.inputs@[j].0@;
        assert(label_announced(
            config.outputs@,
            config.outputs@.len() as int,
            config.inputs@[j].0@,
        ));
    }
}

/// A list with one more label holds that label and those that it held.
proof fn lemma_has_label_push(labels: Seq<String>, new: String, label: Seq<char>)
    ensures
        !has_label(Seq::empty(), label),
        has_label(labels.push(new), label) == (has_label(labels, label) || new@ == label),
{
    reveal(has_label);
    let longer = labels.push(new);
    if has_label(labels, label) {
        let m = choose|m: int| 0 <= m < labels.len() && (#[trigger] labels[m])@ == label;
        assert(longer[m] == labels[m]);
    }
    if new@ == label {
        assert(longer[labels.len() as int]@ == label);
    }
    if has_label(longer, label) {
        let m = choose|m: int| 0 <= m < longer.len() && (#[trigger] longer[m])@ == label;
        if m < labels.len() {
            assert(longer[m] == labels[m]);
        }
    }
}

/// A list with one more index holds that index and those that it held.
proof fn lemma_contains_push(ids: Seq<u8>, new: u8, id: u8)
    ensures
        !Seq::<u8>::empty().contains(id),
        ids.push(new).contains(id) == (ids.contains(id) || new == id),
{
    let longer = ids.push(new);
    if ids.contains(id) {
        let m = choose|m: int| 0 <= m < ids.len() && ids[m] == id;
        assert(longer[m] == id);
    }
    if new == id {
        assert(longer[ids.len() as int] == id);
    }
}

/// Tells whether an index is in a list.
fn contains_id(ids: &Vec<u8>, id: u8) -> (found: bool)
    ensures
        found == ids@.contains(id),
{
    let n: usize = ids.len();
    let mut i: usize = 0;
    while i < n
        invariant
            n == ids@.len(),
            i <= n,
            forall|k: int| 0 <= k < i ==> ids@[k] != id,
        decreases n - i,
    {
        if ids[i] == id {
            return true;
        }
        i += 1;
    }
    false
}

/// Tells whether a label is in a list.
fn contains_label(labels: &Vec<String>, label: &String) -> (found: bool)
    ensures
        found == has_label(labels@, label@),
{
    reveal(has_label);
    let n: usize = labels.len();
    let mut i: usize = 0;
    while i < n
        invariant
            n == labels@.len(),
            i <= n,
            forall|k: int| 0 <= k < i ==> (#[trigger] labels@[k])@ != label@,
        decreases n - i,
    {
        if labels[i] == *label {
            proof {
                reveal(has_label);
                assert(labels@[i as int]@ == label@);
            }
            return true;
        }
        i += 1;
    }
    false
}

/// Announces the outputs of a device, and returns the labels that were taken.
fn announce_outputs(config: &DeviceConfig, components: &mut Vec<(String, Component)>) -> (taken:
    Vec<String>)
    requires
        old(components)@.len() == 0,
    ensures
        components_text(final(components)@) == switches_of(*config, config.outputs@.len() as int),
        forall|label: Seq<char>| #[trigger]
            has_label(taken@, label) == label_announced(
                config.outputs@,
                config.outputs@.len() as int,
                label,
            ),
{
    let mut unique_label: Vec<String> = Vec::new();
    let mut unique_id: Vec<u8> = Vec::new();
    let outputs = &config.outputs;
    let n: usize = outputs.len();
    let mut i: usize = 0;
    proof {
        assert(components_text(components@) =~= switches_of(*config, 0));
        assert forall|id: u8| #[trigger] unique_id@.contains(id) == id_seen(outputs@, 0, id) by {
            reveal(id_seen);
        }
        assert forall|label: Seq<char>| #[trigger]
            has_label(unique_label@, label) == label_announced(outputs@, 0, label) by {
            reveal(has_label);
            reveal(label_announced);
        }
    }
    while i < n
        invariant
            outputs == &config.outputs,
            n == outputs@.len(),
            i <= n,
            components_text(components@) == switches_of(*config, i as int),
            forall|id: u8| #[trigger] unique_id@.contains(id) == id_seen(outputs@, i as int, id),
            forall|label: Seq<char>| #[trigger]
                has_label(unique_label@, label) == label_announced(outputs@, i as int, label),
        decreases n - i,
    {
        let label = &outputs[i].0;
        let io = &outputs[i].1;
        let ghost old_components = components@;
        let ghost old_labels = unique_label@;
        let ghost old_ids = unique_id@;
        proof {
            lemma_id_seen_step(outputs@, i as int, io.id);
        }
        if contains_id(&unique_id, io.id) {
            assert(!output_kept(outputs@, i as int));
        } else {
            assert(output_kept(outputs@, i as int));
            unique_label.push(label.clone());
            unique_id.push(io.id);
            let component = Component::new_switch(label.as_str(), config.addr, io.id, None);
            components.push((label.clone(), component));
            assert(components_text(components@) =~= components_text(old_components).push(
                (label@, switch_text(label@, config.addr, io.id, None)),
            ));
        }
        proof {
            assert forall|id: u8| #[trigger]
                unique_id@.contains(id) == id_seen(outputs@, i + 1, id) by {
                lemma_id_seen_step(outputs@, i as int, id);
                lemma_contains_push(old_ids, io.id, id);
            }
            assert forall|s: Seq<char>| #[trigger]
                has_label(unique_label@, s) == label_announced(outputs@, i + 1, s) by {
                lemma_label_announced_step(outputs@, i as int, s);
                lemma_has_label_push(old_labels, *label, s);
            }
        }
        i += 1;
    }
    unique_label
}

/// Announces the inputs of a device whose label no announced output has taken.
fn announce_inputs(
    config: &DeviceConfig,
    taken: &Vec<String>,
    components: &mut Vec<(String, Component)>,
)
    requires
        forall|label: Seq<char>| #[trigger]
            has_label(taken@, label) == label_announced(
                config.outputs@,
                config.outputs@.len() as int,
                label,
            ),
    ensures
        components_text(final(components)@) == components_text(old(components)@) + sensors_of(
            *config,
            config.inputs@.len() as int,
        ),
{
    let inputs = &config.inputs;
    let n: usize = inputs.len();
    let mut j: usize = 0;
    assert(components_text(components@) =~= components_text(old(components)@) + sensors_of(
        *config,
        0,
    ));
    while j < n
        invariant
            inputs == &config.inputs,
            n == inputs@.len(),
            j <= n,
            components_text(components@) == components_text(old(components)@) + sensors_of(
                *config,
                j as int,
            ),
            forall|label: Seq<char>| #[trigger]
                has_label(taken@, label) == label_announced(
                    config.outputs@,
                    config.outputs@.len() as int,
                    label,
                ),
        decreases n - j,
    {
        let label = &inputs[j].0;
        let io = &inputs[j].1;
        let ghost old_components = components@;
        proof {
            lemma_input_kept(*config, j as int);
        }
        if contains_label(taken, label) {
            assert(!input_kept(*config, j as int));
        } else {
            assert(input_kept(*config, j as int));
            let component = Component::new_input(label.as_str(), config.addr, io.id, None);
            components.push((label.clone(), component));
            assert(components_text(components@) =~= components_text(old_components).push(
                (label@, input_text(label@, config.addr, io.id, None)),
            ));
            assert(components_text(components@) =~= components_text(old(components)@)
                + sensors_of(*config, j as int).push(
                (label@, input_text(label@, config.addr, io.id, None)),
            ));
        }
        j += 1;
    }
}

/// Writes the document that announces a device.
///
/// Of two outputs with one index only the first is announced, and an input
/// under the label of an announced output is not announced. An input may
/// have the index of an output, or of another input: inputs are told apart
/// by label alone. The document holds each label once.
pub fn new_device(name: &str, config: &DeviceConfig) -> (d: Discovery)
    requires
        config.wf(),
    ensures
        d@ == device_text(name@, *config),
        d.wf(),
{
    let origin = Origin {
        name: String::from_str(GATE_NAME),
        sw_version: String::from_str(GATE_VERSION),
        support_url: String::from_str(GATE_URL),
    };
    let mut identifier = String::from_str("gate-");
    push_decimal(&mut identifier, config.addr);
    let device_id = DeviceId {
        name: String::from_str(name),
        identifiers: vec![identifier],
        manufacturer: String::from_str("smartenough"),
    };
    let mut components: Vec<(String, Component)> = Vec::new();
    let taken = announce_outputs(config, &mut components);
    announce_inputs(config, &taken, &mut components);

    let d = Discovery { origin, device: device_id, components };
    assert(d@.identifiers =~= seq!["gate-"@ + decimal(config.addr)]);
    assert(d@.components =~= components_text(d.components@));
    proof {
        lemma_document_labels_distinct(name@, *config);
        assert forall|i: int, j: int| 0 <= i < j < d.components@.len() implies (
        #[trigger] d.components@[i]).0@ != (#[trigger] d.components@[j]).0@ by {
            let text = device_text(name@, *config);
            assert(text.components.len() == d.components@.len());
            assert(text.components[i].0 != text.components[j].0);
            assert(text.components[i].0 == d.components@[i].0@);
            assert(text.components[j].0 == d.components@[j].0@);
        }
    }
    d
}

} // verus!
