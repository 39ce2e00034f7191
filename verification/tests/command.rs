use heating_manager::command::{
    encode, encode_in, encode_payload, namespace_default, ActuationState, Delivery,
};

#[test]
fn encode_on_under_the_default_namespace() {
    let c = encode("0xb4e3f9fffe19faf7", ActuationState::On);
    assert_eq!(c.topic, "zigbee2mqtt/0xb4e3f9fffe19faf7/set");
    assert_eq!(c.payload, b"{\"state\":\"ON\"}".to_vec());
    assert_eq!(c.delivery, Delivery::ExactlyOnce);
    assert!(!c.retain);
}

#[test]
fn encode_off_under_the_default_namespace() {
    let c = encode("0xb4e3f9fffe206084", ActuationState::Off);
    assert_eq!(c.topic, "zigbee2mqtt/0xb4e3f9fffe206084/set");
    assert_eq!(c.payload, b"{\"state\":\"OFF\"}".to_vec());
    assert_eq!(c.delivery, Delivery::ExactlyOnce);
    assert!(!c.retain);
}

#[test]
fn encode_in_a_namespace() {
    let c = encode_in("ns", "devA", ActuationState::On);
    assert_eq!(c.topic, "ns/devA/set");
    assert_eq!(c.payload, b"{\"state\":\"ON\"}".to_vec());
}

#[test]
fn encode_is_stable() {
    assert_eq!(encode("devA", ActuationState::On), encode("devA", ActuationState::On));
    assert_eq!(encode("devA", ActuationState::Off), encode("devA", ActuationState::Off));
}

#[test]
fn states_differ_in_the_state_word_only() {
    let on = encode_in("ns", "devA", ActuationState::On);
    let off = encode_in("ns", "devA", ActuationState::Off);
    assert_eq!(on.topic, off.topic);
    assert_eq!(on.delivery, off.delivery);
    assert_eq!(on.retain, off.retain);
    assert_ne!(on.payload, off.payload);
    assert_eq!(on.payload[..10], off.payload[..10]);
    assert_eq!(on.payload[on.payload.len() - 2..], off.payload[off.payload.len() - 2..]);
    assert_eq!(&on.payload[10..12], b"ON");
    assert_eq!(&off.payload[10..13], b"OFF");
}

#[test]
fn topic_depends_on_the_device() {
    let a = encode_in("ns", "devA", ActuationState::On);
    let b = encode_in("ns", "devB", ActuationState::On);
    assert_ne!(a.topic, b.topic);
    assert_eq!(a.payload, b.payload);
}

#[test]
fn empty_device_keeps_the_pattern() {
    let c = encode_in("ns", "", ActuationState::Off);
    assert_eq!(c.topic, "ns//set");
}

#[test]
fn payload_bytes_are_exact() {
    assert_eq!(
        encode_payload(ActuationState::On),
        vec![123u8, 34, 115, 116, 97, 116, 101, 34, 58, 34, 79, 78, 34, 125]
    );
    assert_eq!(
        encode_payload(ActuationState::Off),
        vec![123u8, 34, 115, 116, 97, 116, 101, 34, 58, 34, 79, 70, 70, 34, 125]
    );
}

#[test]
fn default_namespace_is_the_bridge() {
    assert_eq!(namespace_default(), "zigbee2mqtt");
}
