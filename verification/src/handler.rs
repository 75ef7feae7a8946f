//! Relay handler: orchestrates one request — authenticate, validate, build
//! the broker message — and maps each stage's outcome to a response.
//! Authentication runs strictly before validation, which runs strictly before
//! any publish; a request rejected at either boundary never produces a broker
//! message. The publish itself is the transport's work: the handler hands a
//! [`PublishRequest`] out and maps the reported [`PublishOutcome`] back to a
//! response.

use vstd::prelude::*;
use vstd::string::StringExecFns;
use crate::auth::{authenticate, header_view, spec_authenticate, AuthError};
use crate::command::{spec_validate, validate, RawCommandBody, ValidationError};
use crate::gateway::{
    build_publish_request, spec_publish_request, PublishOutcome, PublishRequest,
    PublishRequestModel,
};

verus! {

/// Status code of a response that accepted and delivered the command.
pub const STATUS_OK: u16 = 200;

/// Status code of a response that rejected a malformed command.
pub const STATUS_BAD_REQUEST: u16 = 400;

/// Status code of a response that rejected the request's credential.
pub const STATUS_UNAUTHORIZED: u16 = 401;

/// Status code of a response for a command the broker transport failed to
/// deliver.
pub const STATUS_BAD_GATEWAY: u16 = 502;

/// What the handler answers a request with: a status code and a body.
#[derive(Clone, Debug)]
pub struct Response {
    /// The status code of the response.
    pub status: u16,
    /// The response body.
    pub body: String,
}

/// The mathematical value of a [`Response`].
pub struct ResponseModel {
    pub status: u16,
    pub body: Seq<char>,
}

impl View for Response {
    type V = ResponseModel;

    open spec fn view(&self) -> ResponseModel {
        ResponseModel { status: self.status, body: self.body@ }
    }
}

/// The unauthorized response for each way authentication fails. Both carry
/// the unauthorized status; the body only says which rule broke.
pub open spec fn spec_auth_response(e: AuthError) -> ResponseModel {
    match e {
        AuthError::Missing => ResponseModel {
            status: STATUS_UNAUTHORIZED,
            body: "missing authorization"@,
        },
        AuthError::Mismatch => ResponseModel {
            status: STATUS_UNAUTHORIZED,
            body: "incorrect authentication"@,
        },
    }
}

/// The bad-request response for each validation error: the body names the
/// field that broke the rule.
pub open spec fn spec_validation_response(e: ValidationError) -> ResponseModel {
    match e {
        ValidationError::InvalidDevice => ResponseModel {
            status: STATUS_BAD_REQUEST,
            body: "device id must be non-empty"@,
        },
        ValidationError::InvalidState => ResponseModel {
            status: STATUS_BAD_REQUEST,
            body: "state must be [0,1,2]"@,
        },
        ValidationError::InvalidPort => ResponseModel {
            status: STATUS_BAD_REQUEST,
            body: "port must be [0,255]"@,
        },
    }
}

/// What one request comes to, before any publish is attempted: the broker
/// message to deliver, or the response that rejects the request. A rejected
/// request produces no broker message at all.
pub open spec fn spec_handle(
    header: Option<Seq<char>>,
    id: Seq<char>,
    state: int,
    port: int,
    secret: Seq<char>,
) -> Result<PublishRequestModel, ResponseModel> {
    match spec_authenticate(header, secret) {
        Err(e) => Err(spec_auth_response(e)),
        Ok(()) => match spec_validate(id, state, port) {
            Err(e) => Err(spec_validation_response(e)),
            Ok(c) => Ok(spec_publish_request(c)),
        },
    }
}

/// Whether `r` is the result [`spec_handle`] prescribes for the given
/// request: the prescribed broker message where the request is accepted, the
/// prescribed rejection where it is not.
pub open spec fn handle_reflects(
    r: Result<PublishRequest, Response>,
    header: Option<Seq<char>>,
    id: Seq<char>,
    state: int,
    port: int,
    secret: Seq<char>,
) -> bool {
    match r {
        Ok(q) => spec_handle(header, id, state, port, secret) == Ok::<
            PublishRequestModel,
            ResponseModel,
        >(q@),
        Err(resp) => spec_handle(header, id, state, port, secret) == Err::<
            PublishRequestModel,
            ResponseModel,
        >(resp@),
    }
}

/// Builds the unauthorized response for a failed authentication.
pub fn auth_response(e: &AuthError) -> (r: Response)
    ensures
        r@ == spec_auth_response(*e),
{
    match e {
        AuthError::Missing => Response {
            status: STATUS_UNAUTHORIZED,
            body: String::from_str("missing authorization"),
        },
        AuthError::Mismatch => Response {
            status: STATUS_UNAUTHORIZED,
            body: String::from_str("incorrect authentication"),
        },
    }
}

/// Builds the bad-request response for a validation error.
pub fn validation_response(e: &ValidationError) -> (r: Response)
    ensures
        r@ == spec_validation_response(*e),
{
    match e {
        ValidationError::InvalidDevice => Response {
            status: STATUS_BAD_REQUEST,
            body: String::from_str("device id must be non-empty"),
        },
        ValidationError::InvalidState => Response {
            status: STATUS_BAD_REQUEST,
            body: String::from_str("state must be [0,1,2]"),
        },
        ValidationError::InvalidPort => Response {
            status: STATUS_BAD_REQUEST,
            body: String::from_str("port must be [0,255]"),
        },
    }
}

/// Handles one relay request up to the publish boundary: authenticates the
/// credential against the shared secret, validates the command, and builds
/// the broker message — or answers with the response that rejects the
/// request, in which case no broker message exists to publish.
pub fn handle_relay_request(
    auth_header: Option<&str>,
    device_id: &str,
    body: &RawCommandBody,
    secret: &str,
) -> (r: Result<PublishRequest, Response>)
    ensures
        handle_reflects(
            r,
            header_view(auth_header),
            device_id@,
            body.state as int,
            body.port as int,
            secret@,
        ),
{
    if let Err(e) = authenticate(auth_header, secret) {
        return Err(auth_response(&e));
    }
    let command = match validate(device_id, body) {
        Ok(c) => c,
        Err(e) => {
            return Err(validation_response(&e));
        },
    };
    Ok(build_publish_request(&command))
}

/// The response for each publish outcome: an acknowledged delivery answers
/// `200 OK`; a broker rejection or a transport failure answers `502` with a
/// generic message — the command is safe to retry as a whole request.
pub open spec fn spec_outcome_response(outcome: PublishOutcome) -> ResponseModel {
    match outcome {
        PublishOutcome::Success => ResponseModel { status: STATUS_OK, body: "OK"@ },
        PublishOutcome::Rejected(_) => ResponseModel {
            status: STATUS_BAD_GATEWAY,
            body: "mqtt publish failed"@,
        },
        PublishOutcome::TransportFailure(_) => ResponseModel {
            status: STATUS_BAD_GATEWAY,
            body: "mqtt publish failed"@,
        },
    }
}

/// Maps the reported outcome of a publish attempt to the response.
pub fn response_for_outcome(outcome: &PublishOutcome) -> (r: Response)
    ensures
        r@ == spec_outcome_response(*outcome),
{
    match outcome {
        PublishOutcome::Success => Response { status: STATUS_OK, body: String::from_str("OK") },
        PublishOutcome::Rejected(_) => Response {
            status: STATUS_BAD_GATEWAY,
            body: String::from_str("mqtt publish failed"),
        },
        PublishOutcome::TransportFailure(_) => Response {
            status: STATUS_BAD_GATEWAY,
            body: String::from_str("mqtt publish failed"),
        },
    }
}

} // verus!
