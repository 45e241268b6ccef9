use io_gate::config::{has_distinct_labels, Config, DeviceConfig, IOConfig};
use io_gate::consts::{GATE_NAME, GATE_URL, GATE_VERSION, HA_CONTROL_TOPIC, HA_DISCOVERY_TOPIC};
use io_gate::homeassistant::discovery::{new_device, Component};
use io_gate::homeassistant::text::push_decimal;
use io_gate::homeassistant::Outgoing;
use io_gate::router::startup_messages;

fn io(label: &str, id: u8) -> (String, IOConfig) {
    (label.to_string(), IOConfig { id, io_type: None })
}

fn kitchen() -> DeviceConfig {
    DeviceConfig {
        addr: 2,
        outputs: vec![io("lamp", 1), io("fan", 2), io("spare", 1), io("heater", 200)],
        inputs: vec![io("door", 1), io("fan", 7), io("window", 1), io("spare", 9)],
    }
}

#[test]
fn decimal_text() {
    for n in 0..=255u8 {
        let mut s = String::from("n=");
        push_decimal(&mut s, n);
        assert_eq!(s, format!("n={}", n));
    }
}

#[test]
fn switch_component() {
    let c = Component::new_switch("lamp", 2, 5, None);
    assert_eq!(c.name, "lamp");
    assert_eq!(c.platform, "switch");
    assert_eq!(c.device_class.as_deref(), Some("switch"));
    assert_eq!(c.unique_id, "io-gate-2-5");
    assert_eq!(c.command_topic.as_deref(), Some("smartenough/2/switch/5/set"));
    assert_eq!(c.state_topic, "smartenough/2/switch/5/state");

    let c = Component::new_switch("socket", 255, 100, Some("outlet".to_string()));
    assert_eq!(c.device_class.as_deref(), Some("outlet"));
    assert_eq!(c.unique_id, "io-gate-255-100");
    assert_eq!(c.command_topic.as_deref(), Some("smartenough/255/switch/100/set"));
    assert_eq!(c.state_topic, "smartenough/255/switch/100/state");
}

#[test]
fn input_component() {
    let c = Component::new_input("door", 2, 5, None);
    assert_eq!(c.name, "door");
    assert_eq!(c.platform, "binary_sensor");
    assert_eq!(c.device_class, None);
    assert_eq!(c.unique_id, "io-gate-in-2-5");
    assert_eq!(c.command_topic, None);
    assert_eq!(c.state_topic, "smartenough/2/switch/5/state");

    let c = Component::new_input("door", 0, 10, Some("door".to_string()));
    assert_eq!(c.device_class.as_deref(), Some("door"));
    assert_eq!(c.unique_id, "io-gate-in-0-10");
    assert_eq!(c.state_topic, "smartenough/0/switch/10/state");
}

#[test]
fn device_document() {
    let d = new_device("kitchen", &kitchen());
    assert_eq!(d.device.name, "kitchen");
    assert_eq!(d.device.identifiers, vec!["gate-2".to_string()]);
    assert_eq!(d.device.manufacturer, "smartenough");
    assert_eq!(d.origin.name, GATE_NAME);
    assert_eq!(d.origin.sw_version, GATE_VERSION);
    assert_eq!(d.origin.support_url, GATE_URL);

    let labels: Vec<&str> = d.components.iter().map(|(l, _)| l.as_str()).collect();
    // "spare" has the index of "lamp"; the input "fan" has the label of an
    // announced output; the input "spare" has the label of an output that
    // is not announced; "window" has the index of "door", which is no matter.
    assert_eq!(labels, vec!["lamp", "fan", "heater", "door", "window", "spare"]);

    let ids: Vec<&str> = d.components.iter().map(|(_, c)| c.unique_id.as_str()).collect();
    assert_eq!(
        ids,
        vec![
            "io-gate-2-1",
            "io-gate-2-2",
            "io-gate-2-200",
            "io-gate-in-2-1",
            "io-gate-in-2-1",
            "io-gate-in-2-9"
        ]
    );
    for (label, c) in &d.components {
        assert_eq!(&c.name, label);
    }
    assert_eq!(d.components[0].1.platform, "switch");
    assert_eq!(d.components[3].1.platform, "binary_sensor");
}

#[test]
fn device_without_inputs_or_outputs() {
    let d = new_device("bare", &DeviceConfig { addr: 63, outputs: vec![], inputs: vec![] });
    assert_eq!(d.device.identifiers, vec!["gate-63".to_string()]);
    assert!(d.components.is_empty());
}

#[test]
fn what_is_sent_when_a_device_is_taken_up() {
    let sent = startup_messages("kitchen", &kitchen());
    assert_eq!(sent.len(), 4);
    let topics: Vec<String> = sent
        .iter()
        .filter_map(|m| match m {
            Outgoing::Subscribe(t) => Some(t.clone()),
            _ => None,
        })
        .collect();
    assert_eq!(
        topics,
        vec![
            "smartenough/2/switch/1/set".to_string(),
            "smartenough/2/switch/2/set".to_string(),
            "smartenough/2/switch/200/set".to_string()
        ]
    );
    match &sent[3] {
        Outgoing::DiscoveryDevice(d) => {
            assert_eq!(d.device.name, "kitchen");
            assert_eq!(d.components.len(), 6);
        }
        other => panic!("{:?}", other),
    }
}

#[test]
fn labels_are_checked() {
    assert!(has_distinct_labels(&vec![]));
    assert!(has_distinct_labels(&vec![io("a", 1), io("b", 1), io("c", 1)]));
    assert!(!has_distinct_labels(&vec![io("a", 1), io("b", 2), io("a", 3)]));
    assert!(!has_distinct_labels(&vec![io("a", 1), io("a", 1)]));

    assert!(kitchen().is_valid());
    let mut twice = kitchen();
    twice.inputs.push(io("door", 3));
    assert!(!twice.is_valid());
    let mut twice = kitchen();
    twice.outputs.push(io("lamp", 3));
    assert!(!twice.is_valid());

    let ok = Config { devices: vec![("a".to_string(), kitchen()), ("b".to_string(), kitchen())] };
    assert!(ok.is_valid());
    let same = Config { devices: vec![("a".to_string(), kitchen()), ("a".to_string(), kitchen())] };
    assert!(!same.is_valid());
    let inner = Config { devices: vec![("a".to_string(), kitchen()), ("b".to_string(), twice)] };
    assert!(!inner.is_valid());
    assert!(Config { devices: vec![] }.is_valid());
}

#[test]
fn topic_prefixes() {
    assert_eq!(HA_CONTROL_TOPIC, "smartenough");
    assert_eq!(HA_DISCOVERY_TOPIC, "homeassistant");
    assert_eq!(GATE_NAME, "io-gate");
}

#[test]
fn document_holds_each_label_once() {
    let d = new_device("kitchen", &kitchen());
    for (i, (a, _)) in d.components.iter().enumerate() {
        for (b, _) in d.components.iter().skip(i + 1) {
            assert_ne!(a, b);
        }
    }
}
