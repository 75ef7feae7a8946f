//! Publish gateway: builds the broker message for a validated command —
//! deterministic topic, fixed two-byte payload, and the delivery policy
//! (highest acknowledgment tier, retain off) — and classifies the outcome of
//! a publish attempt.

use vstd::prelude::*;
use vstd::string::StringExecFns;
use crate::command::RelayCommand;

verus! {

/// The acknowledgment tier requested from the broker for a message.
#[derive(Clone, Copy, Debug, PartialEq, Eq, Structural)]
pub enum QosLevel {
    /// Fire and forget: no acknowledgment.
    AtMostOnce,
    /// Acknowledged delivery; duplicates possible.
    AtLeastOnce,
    /// The highest tier: acknowledged, duplicate-free delivery.
    ExactlyOnce,
}

/// The transient result of one publish attempt against the broker transport;
/// never persisted, mapped directly to a response.
#[derive(Clone, Debug)]
pub enum PublishOutcome {
    /// The transport acknowledged delivery.
    Success,
    /// The broker refused the message, with the broker's reason.
    Rejected(String),
    /// The transport failed before the message was acknowledged, with the
    /// cause.
    TransportFailure(String),
}

/// Everything the broker transport needs to deliver one relay command.
#[derive(Clone, Debug)]
pub struct PublishRequest {
    /// The per-device topic the message is routed by.
    pub topic: String,
    /// The raw bytes delivered to the device.
    pub payload: Vec<u8>,
    /// The acknowledgment tier to request.
    pub qos: QosLevel,
    /// Whether the broker should retain the message for later subscribers.
    pub retain: bool,
}

/// The mathematical value of a [`PublishRequest`].
pub struct PublishRequestModel {
    pub topic: Seq<char>,
    pub payload: Seq<u8>,
    pub qos: QosLevel,
    pub retain: bool,
}

impl View for PublishRequest {
    type V = PublishRequestModel;

    open spec fn view(&self) -> PublishRequestModel {
        PublishRequestModel {
            topic: self.topic@,
            payload: self.payload@,
            qos: self.qos,
            retain: self.retain,
        }
    }
}

/// The topic a device's relay commands are routed by:
/// `devices/<id>/relay/set`.
pub open spec fn topic_of(id: Seq<char>) -> Seq<char> {
    "devices/"@ + id + "/relay/set"@
}

/// The fixed two-byte wire payload of a command: the state byte, then the
/// port — no framing, length prefix or text encoding.
pub open spec fn payload_of(state_byte: u8, port: u8) -> Seq<u8> {
    seq![state_byte, port]
}

/// The complete broker message for a validated command: its device's topic,
/// its two-byte payload, the highest acknowledgment tier, retain off.
pub open spec fn spec_publish_request(c: crate::command::RelayCommandModel) -> PublishRequestModel {
    PublishRequestModel {
        topic: topic_of(c.device_id),
        payload: payload_of(c.desired_state.spec_byte(), c.port),
        qos: QosLevel::ExactlyOnce,
        retain: false,
    }
}

/// Builds the topic string for a device.
pub fn topic_for(device_id: &str) -> (t: String)
    ensures
        t@ == topic_of(device_id@),
{
    let head = String::from_str("devices/");
    let mut t = head.concat(device_id);
    t.append("/relay/set");
    t
}

/// Builds the two-byte wire payload of a command.
pub fn payload_for(command: &RelayCommand) -> (p: Vec<u8>)
    ensures
        p@ == payload_of(command.desired_state.spec_byte(), command.port),
{
    let mut p: Vec<u8> = Vec::new();
    p.push(command.desired_state.byte());
    p.push(command.port);
    assert(p@ =~= payload_of(command.desired_state.spec_byte(), command.port));
    p
}

/// Builds the broker message for a validated command. The command is
/// transient, not a device's persistent desired-state record, so retain is
/// off; delivery requests the highest acknowledgment tier the transport
/// supports.
pub fn build_publish_request(command: &RelayCommand) -> (q: PublishRequest)
    ensures
        q@ == spec_publish_request(command@),
{
    let topic = topic_for(command.device_id.as_str());
    let payload = payload_for(command);
    PublishRequest { topic, payload, qos: QosLevel::ExactlyOnce, retain: false }
}

} // verus!
