use relay_bridge::auth::{authenticate, AuthError};
use relay_bridge::command::{validate, DesiredState, RawCommandBody, ValidationError};
use relay_bridge::gateway::{
    build_publish_request, payload_for, topic_for, PublishOutcome, QosLevel,
};
use relay_bridge::handler::{handle_relay_request, response_for_outcome};

const SECRET: &str = "devtoken";

fn body(state: i64, port: i64) -> RawCommandBody {
    RawCommandBody { state, port }
}

#[test]
fn valid_request_builds_exact_message_and_ok_response() {
    let r = handle_relay_request(Some("Bearer devtoken"), "abc123", &body(1, 4), SECRET);
    let q = r.expect("a valid request must be accepted");
    assert_eq!(q.topic, "devices/abc123/relay/set");
    assert_eq!(q.payload, vec![1u8, 4u8]);
    assert_eq!(q.qos, QosLevel::ExactlyOnce);
    assert!(!q.retain);
    let resp = response_for_outcome(&PublishOutcome::Success);
    assert_eq!(resp.status, 200);
    assert_eq!(resp.body, "OK");
}

#[test]
fn invalid_state_rejected_before_any_publish() {
    let r = handle_relay_request(Some("Bearer devtoken"), "abc123", &body(5, 4), SECRET);
    let resp = r.expect_err("state 5 must be rejected");
    assert_eq!(resp.status, 400);
    assert_eq!(resp.body, "state must be [0,1,2]");
}

#[test]
fn missing_header_rejected_before_any_publish() {
    let r = handle_relay_request(None, "abc123", &body(1, 4), SECRET);
    let resp = r.expect_err("a request without a credential must be rejected");
    assert_eq!(resp.status, 401);
    assert_eq!(resp.body, "missing authorization");
}

#[test]
fn wrong_credential_rejected() {
    let r = handle_relay_request(Some("Bearer other"), "abc123", &body(1, 4), SECRET);
    let resp = r.expect_err("a wrong credential must be rejected");
    assert_eq!(resp.status, 401);
    assert_eq!(resp.body, "incorrect authentication");
}

#[test]
fn credential_comparison_is_exact() {
    assert_eq!(authenticate(Some("Bearer devtoken"), SECRET), Ok(()));
    assert_eq!(authenticate(None, SECRET), Err(AuthError::Missing));
    // Case-sensitive, no trimming.
    assert_eq!(
        authenticate(Some("bearer devtoken"), SECRET),
        Err(AuthError::Mismatch)
    );
    assert_eq!(
        authenticate(Some("Bearer devtoken "), SECRET),
        Err(AuthError::Mismatch)
    );
    assert_eq!(
        authenticate(Some("Bearer devtoke"), SECRET),
        Err(AuthError::Mismatch)
    );
    assert_eq!(authenticate(Some(""), SECRET), Err(AuthError::Mismatch));
}

#[test]
fn validate_accepts_each_state_value() {
    let c0 = validate("dev", &body(0, 9)).unwrap();
    assert_eq!(c0.desired_state, DesiredState::Off);
    let c1 = validate("dev", &body(1, 9)).unwrap();
    assert_eq!(c1.desired_state, DesiredState::On);
    let c2 = validate("dev", &body(2, 9)).unwrap();
    assert_eq!(c2.desired_state, DesiredState::TimedOn);
    assert_eq!(c2.device_id, "dev");
    assert_eq!(c2.port, 9);
}

#[test]
fn validate_rejects_each_broken_rule() {
    assert_eq!(validate("", &body(1, 4)).unwrap_err(), ValidationError::InvalidDevice);
    assert_eq!(validate("dev", &body(3, 4)).unwrap_err(), ValidationError::InvalidState);
    assert_eq!(validate("dev", &body(-1, 4)).unwrap_err(), ValidationError::InvalidState);
    assert_eq!(validate("dev", &body(1, 256)).unwrap_err(), ValidationError::InvalidPort);
    assert_eq!(validate("dev", &body(1, -1)).unwrap_err(), ValidationError::InvalidPort);
}

#[test]
fn validate_checks_device_then_state_then_port() {
    // All three rules broken: the device rule names the error.
    assert_eq!(validate("", &body(9, 999)).unwrap_err(), ValidationError::InvalidDevice);
    // State and port broken: the state rule names the error.
    assert_eq!(validate("dev", &body(9, 999)).unwrap_err(), ValidationError::InvalidState);
}

#[test]
fn port_boundaries_accepted() {
    let lo = validate("dev", &body(1, 0)).unwrap();
    assert_eq!(lo.port, 0);
    let hi = validate("dev", &body(1, 255)).unwrap();
    assert_eq!(hi.port, 255);
}

#[test]
fn empty_device_rejected_with_bad_request() {
    let r = handle_relay_request(Some("Bearer devtoken"), "", &body(1, 4), SECRET);
    let resp = r.expect_err("an empty device id must be rejected");
    assert_eq!(resp.status, 400);
    assert_eq!(resp.body, "device id must be non-empty");
}

#[test]
fn out_of_range_port_rejected_with_bad_request() {
    let r = handle_relay_request(Some("Bearer devtoken"), "abc123", &body(1, 300), SECRET);
    let resp = r.expect_err("port 300 must be rejected");
    assert_eq!(resp.status, 400);
    assert_eq!(resp.body, "port must be [0,255]");
}

#[test]
fn topic_and_payload_construction() {
    let t = topic_for("kitchen-lamp");
    assert_eq!(t, "devices/kitchen-lamp/relay/set");
    let c = validate("kitchen-lamp", &body(2, 255)).unwrap();
    let p = payload_for(&c);
    assert_eq!(p, vec![2u8, 255u8]);
    let q = build_publish_request(&c);
    assert_eq!(q.topic, "devices/kitchen-lamp/relay/set");
    assert_eq!(q.payload, vec![2u8, 255u8]);
    assert_eq!(q.qos, QosLevel::ExactlyOnce);
    assert!(!q.retain);
}

#[test]
fn state_wire_bytes() {
    assert_eq!(DesiredState::Off.byte(), 0);
    assert_eq!(DesiredState::On.byte(), 1);
    assert_eq!(DesiredState::TimedOn.byte(), 2);
}

#[test]
fn identical_requests_give_identical_messages() {
    let r1 = handle_relay_request(Some("Bearer devtoken"), "abc123", &body(1, 4), SECRET)
        .expect("a valid request must be accepted");
    let r2 = handle_relay_request(Some("Bearer devtoken"), "abc123", &body(1, 4), SECRET)
        .expect("a valid request must be accepted");
    assert_eq!(r1.topic, r2.topic);
    assert_eq!(r1.payload, r2.payload);
    assert_eq!(r1.qos, r2.qos);
    assert_eq!(r1.retain, r2.retain);
}

#[test]
fn transport_failure_maps_to_bad_gateway() {
    let resp = response_for_outcome(&PublishOutcome::TransportFailure(
        "connection reset".to_string(),
    ));
    assert_eq!(resp.status, 502);
    assert_eq!(resp.body, "mqtt publish failed");
}

#[test]
fn broker_rejection_maps_to_bad_gateway() {
    let resp = response_for_outcome(&PublishOutcome::Rejected("quota".to_string()));
    assert_eq!(resp.status, 502);
    assert_eq!(resp.body, "mqtt publish failed");
}
