//! Device commands: what is published for a device and an actuation state.

use vstd::prelude::*;
use vstd::string::*;
use vstd::utf8::is_ascii_chars;

verus! {

/// What the heaters are told to do.
#[derive(Clone, Copy, Debug, PartialEq, Eq, Structural)]
pub enum ActuationState {
    On,
    Off,
}

/// Delivery guarantee asked of the transport for one message.
#[derive(Clone, Copy, Debug, PartialEq, Eq, Structural)]
pub enum Delivery {
    AtMostOnce,
    AtLeastOnce,
    ExactlyOnce,
}

/// One message for one device.
#[derive(Debug, PartialEq, Eq)]
pub struct Command {
    pub topic: String,
    pub payload: Vec<u8>,
    pub delivery: Delivery,
    pub retain: bool,
}

/// Mathematical content of a [`Command`].
pub struct CommandModel {
    pub topic: Seq<char>,
    pub payload: Seq<u8>,
    pub delivery: Delivery,
    pub retain: bool,
}

impl View for Command {
    type V = CommandModel;

    open spec fn view(&self) -> CommandModel {
        CommandModel {
            topic: self.topic@,
            payload: self.payload@,
            delivery: self.delivery,
            retain: self.retain,
        }
    }
}

/// The topic prefix under which the bridge listens when none is configured.
pub open spec fn default_namespace() -> Seq<char> {
    "zigbee2mqtt"@
}

/// The word that stands for a state in a payload.
pub open spec fn state_word(state: ActuationState) -> Seq<char> {
    match state {
        ActuationState::On => "ON"@,
        ActuationState::Off => "OFF"@,
    }
}

/// Text of a payload before the state word.
pub open spec fn payload_head() -> Seq<char> {
    "{\"state\":\""@
}

/// Text of a payload after the state word.
pub open spec fn payload_tail() -> Seq<char> {
    "\"}"@
}

/// The payload as text: one field, `state`, holding the state word.
pub open spec fn payload_text(state: ActuationState) -> Seq<char> {
    payload_head() + state_word(state) + payload_tail()
}

/// The bytes of a text made of ASCII characters only.
pub open spec fn ascii_bytes(text: Seq<char>) -> Seq<u8> {
    Seq::new(text.len(), |i: int| text[i] as u8)
}

/// The topic of a device: namespace, device and the word `set`, joined by `/`.
pub open spec fn topic_of(namespace: Seq<char>, device: Seq<char>) -> Seq<char> {
    namespace + "/"@ + device + "/set"@
}

/// The command for a device and a state.
pub open spec fn command_of(
    namespace: Seq<char>,
    device: Seq<char>,
    state: ActuationState,
) -> CommandModel {
    CommandModel {
        topic: topic_of(namespace, device),
        payload: ascii_bytes(payload_text(state)),
        delivery: Delivery::ExactlyOnce,
        retain: false,
    }
}

/// The payload text has exactly these characters.
pub proof fn lemma_payload_text(state: ActuationState)
    ensures
        state == ActuationState::On ==> payload_text(state) == "{\"state\":\"ON\"}"@,
        state == ActuationState::Off ==> payload_text(state) == "{\"state\":\"OFF\"}"@,
        is_ascii_chars(payload_text(state)),
{
    reveal_strlit("{\"state\":\"");
    reveal_strlit("\"}");
    reveal_strlit("ON");
    reveal_strlit("OFF");
    reveal_strlit("{\"state\":\"ON\"}");
    reveal_strlit("{\"state\":\"OFF\"}");
    match state {
        ActuationState::On => {
            assert(payload_text(state) =~= "{\"state\":\"ON\"}"@);
        },
        ActuationState::Off => {
            assert(payload_text(state) =~= "{\"state\":\"OFF\"}"@);
        },
    }
}

/// The namespace used when none is configured.
pub fn namespace_default() -> (ns: String)
    ensures
        ns@ == default_namespace(),
{
    String::from_str("zigbee2mqtt")
}

/// The payload bytes for a state.
pub fn encode_payload(state: ActuationState) -> (payload: Vec<u8>)
    ensures
        payload@ == ascii_bytes(payload_text(state)),
{
    let word = match state {
        ActuationState::On => "ON",
        ActuationState::Off => "OFF",
    };
    let text = String::from_str("{\"state\":\"").concat(word).concat("\"}");
    let slice = text.as_str();
    proof {
        lemma_payload_text(state);
        assert(slice@ == payload_text(state));
        is_ascii_spec_bytes(slice);
    }
    let payload = slice.as_bytes_vec();
    assert(payload@ =~= ascii_bytes(payload_text(state)));
    payload
}

/// Encodes the command for `device` under the topic prefix `namespace`.
pub fn encode_in(namespace: &str, device: &str, state: ActuationState) -> (command: Command)
    ensures
        command@ == command_of(namespace@, device@, state),
{
    let topic = String::from_str(namespace).concat("/").concat(device).concat("/set");
    Command { topic, payload: encode_payload(state), delivery: Delivery::ExactlyOnce, retain: false }
}

/// Encodes the command for `device` under the default namespace.
pub fn encode(device: &str, state: ActuationState) -> (command: Command)
    ensures
        command@ == command_of(default_namespace(), device@, state),
{
    encode_in("zigbee2mqtt", device, state)
}

/// The two commands of one device share topic, delivery and retain flag, and
/// their payloads share head and tail: they differ in the state word alone.
pub proof fn lemma_states_differ_in_word_only(namespace: Seq<char>, device: Seq<char>)
    ensures
        command_of(namespace, device, ActuationState::On).topic == command_of(
            namespace,
            device,
            ActuationState::Off,
        ).topic,
        command_of(namespace, device, ActuationState::On).delivery == command_of(
            namespace,
            device,
            ActuationState::Off,
        ).delivery,
        command_of(namespace, device, ActuationState::On).retain == command_of(
            namespace,
            device,
            ActuationState::Off,
        ).retain,
        forall|state: ActuationState|
            command_of(namespace, device, state).payload == ascii_bytes(
                payload_head() + #[trigger] state_word(state) + payload_tail(),
            ),
        state_word(ActuationState::On) != state_word(ActuationState::Off),
        command_of(namespace, device, ActuationState::On).payload != command_of(
            namespace,
            device,
            ActuationState::Off,
        ).payload,
{
    reveal_strlit("ON");
    reveal_strlit("OFF");
    lemma_payload_text(ActuationState::On);
    lemma_payload_text(ActuationState::Off);
    reveal_strlit("{\"state\":\"ON\"}");
    reveal_strlit("{\"state\":\"OFF\"}");
    let on = command_of(namespace, device, ActuationState::On).payload;
    let off = command_of(namespace, device, ActuationState::Off).payload;
    assert(on.len() == 14);
    assert(off.len() == 15);
}

} // verus!
