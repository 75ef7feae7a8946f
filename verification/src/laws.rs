//! The pipeline's guarantees, stated over the whole input space and proved.
//! Each law speaks of [`spec_handle`], the prescription every result of
//! [`crate::handler::handle_relay_request`] meets (see
//! [`crate::handler::handle_reflects`]).

use vstd::prelude::*;
use crate::auth::spec_authenticate;
use crate::gateway::{payload_of, topic_of, PublishRequest, PublishRequestModel, QosLevel};
use crate::handler::{
    handle_reflects, spec_handle, Response, STATUS_BAD_REQUEST, STATUS_UNAUTHORIZED,
};

verus! {

/// A request whose credential fails authentication — the header absent, or
/// bearing any value other than the exact expected bearer string — is
/// answered with an unauthorized status, and no broker message exists for it:
/// a publish is never attempted.
pub proof fn lemma_unauthenticated_never_published(
    header: Option<Seq<char>>,
    id: Seq<char>,
    state: int,
    port: int,
    secret: Seq<char>,
)
    requires
        spec_authenticate(header, secret) is Err,
    ensures
        spec_handle(header, id, state, port, secret) matches Err(resp) && resp.status
            == STATUS_UNAUTHORIZED,
{
}

/// A request with a valid credential whose state is outside {0, 1, 2} is
/// answered with a bad-request status, and no broker message exists for it:
/// a publish is never attempted.
pub proof fn lemma_invalid_state_never_published(
    header: Option<Seq<char>>,
    id: Seq<char>,
    state: int,
    port: int,
    secret: Seq<char>,
)
    requires
        spec_authenticate(header, secret) is Ok,
        !(0 <= state <= 2),
    ensures
        spec_handle(header, id, state, port, secret) matches Err(resp) && resp.status
            == STATUS_BAD_REQUEST,
{
}

/// A request with a valid credential whose port is outside [0, 255] is
/// answered with a bad-request status, and no broker message exists for it:
/// a publish is never attempted.
pub proof fn lemma_invalid_port_never_published(
    header: Option<Seq<char>>,
    id: Seq<char>,
    state: int,
    port: int,
    secret: Seq<char>,
)
    requires
        spec_authenticate(header, secret) is Ok,
        !(0 <= port <= 255),
    ensures
        spec_handle(header, id, state, port, secret) matches Err(resp) && resp.status
            == STATUS_BAD_REQUEST,
{
}

/// For every valid request — credential accepted, device identifier
/// non-empty, state in {0, 1, 2}, port in [0, 255] — the broker message is
/// pinned exactly: topic `devices/<id>/relay/set`, payload the two bytes
/// `[state, port]`, the highest acknowledgment tier, retain off.
pub proof fn lemma_valid_request_message_exact(
    header: Option<Seq<char>>,
    id: Seq<char>,
    state: int,
    port: int,
    secret: Seq<char>,
)
    requires
        spec_authenticate(header, secret) is Ok,
        id.len() > 0,
        0 <= state <= 2,
        0 <= port <= 255,
    ensures
        spec_handle(header, id, state, port, secret) == Ok::<
            PublishRequestModel,
            crate::handler::ResponseModel,
        >(
            PublishRequestModel {
                topic: topic_of(id),
                payload: payload_of(state as u8, port as u8),
                qos: QosLevel::ExactlyOnce,
                retain: false,
            },
        ),
{
}

/// Idempotence: two results of handling the identical request are the same
/// decision — two accepted runs carry broker messages with identical topic,
/// payload, acknowledgment tier and retain flag (two independent publishes,
/// no dedup), and two rejected runs carry the identical response.
pub proof fn lemma_identical_requests_identical_messages(
    r1: Result<PublishRequest, Response>,
    r2: Result<PublishRequest, Response>,
    header: Option<Seq<char>>,
    id: Seq<char>,
    state: int,
    port: int,
    secret: Seq<char>,
)
    requires
        handle_reflects(r1, header, id, state, port, secret),
        handle_reflects(r2, header, id, state, port, secret),
    ensures
        r1 matches Ok(q1) ==> r2 matches Ok(q2) && q1@ == q2@,
        r1 matches Err(a) ==> r2 matches Err(b) && a@ == b@,
{
}

} // verus!
