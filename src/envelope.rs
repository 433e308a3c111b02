//! Request and reply envelopes: what is published and what is read back.

use vstd::prelude::*;
use vstd::string::*;
use crate::call::{PendingCall, Reply, deadline_spec};
use crate::json::{parse_status_from_header, decode_response_body, json_parses, body_document, header_status};
use crate::status::{RpcError, SUCCESS};
use crate::text::{decimal_string, decimal_text, trimmed};

verus! {

/// A request as published on a service's request topic.
#[derive(Debug)]
pub struct RpcReqMsg {
    /// The correlation id of the call.
    pub uuid: String,
    /// JSON header naming the operation: `{"api_id":<id>}`.
    pub header: String,
    /// The serialized parameters.
    pub body: String,
}

/// A reply as read from a service's response topic.
#[derive(Debug)]
pub struct RpcRespMsg {
    /// The correlation id that the reply echoes.
    pub uuid: String,
    /// JSON header; its `status` member carries the status.
    pub header: String,
    /// The serialized result, or the failure text.
    pub body: String,
}

/// Header of a request addressed by key expression.
#[derive(Debug)]
pub struct RequestHeader {
    /// Unique request id.
    pub request_id: String,
    /// Name of the operation.
    pub api_id: String,
}

/// A request addressed by key expression.
#[derive(Debug)]
pub struct Request {
    pub header: RequestHeader,
    /// The serialized parameters.
    pub body: String,
}

/// Header of a reply to a request addressed by key expression.
#[derive(Debug)]
pub struct ResponseHeader {
    /// The request id this reply answers.
    pub request_id: String,
    /// Status code: `0` success, anything else a failure.
    pub status: i32,
}

/// A reply to a request addressed by key expression.
#[derive(Debug)]
pub struct Response {
    pub header: ResponseHeader,
    /// The serialized result.
    pub body: String,
}

/// The header text of a request for operation `api_id`.
pub open spec fn api_header_text(api_id: i32) -> Seq<char> {
    "{\"api_id\":"@ + decimal_text(api_id as int) + "}"@
}

/// Writes the header of a request for operation `api_id`.
pub fn request_header(api_id: i32) -> (r: String)
    ensures
        r@ == api_header_text(api_id),
{
    let digits = decimal_string(api_id as i64);
    "{\"api_id\":".to_owned().concat(digits.as_str()).concat("}")
}

impl RpcReqMsg {
    /// The request envelope for operation `api_id` with the given id and body.
    pub fn new(request_id: String, api_id: i32, body: String) -> (r: RpcReqMsg)
        ensures
            r.uuid == request_id,
            r.header@ == api_header_text(api_id),
            r.body == body,
    {
        RpcReqMsg { uuid: request_id, header: request_header(api_id), body }
    }
}

/// Relies on uuid's `Uuid::new_v4` and its hyphenated text form: a fresh
/// random id for each call, 36 characters long.
#[verifier::external_body]
fn new_request_id() -> (r: String)
    ensures
        r@.len() == 36,
{
    uuid::Uuid::new_v4().to_string()
}

/// Builds the request of a call with a fresh correlation id, and starts the
/// wait for its reply at `now_ms`, with the call's own timeout or else the
/// default one.
pub fn prepare_call(
    api_id: i32,
    body: String,
    now_ms: u64,
    timeout_ms: Option<u64>,
    default_timeout_ms: u64,
) -> (r: (RpcReqMsg, PendingCall))
    ensures
        r.0.uuid == r.1.request_id,
        r.0.header@ == api_header_text(api_id),
        r.0.body == body,
        r.0.uuid@.len() == 36,
        r.1.timeout_ms == (match timeout_ms {
            Some(t) => t,
            None => default_timeout_ms,
        }),
        r.1.deadline_ms == deadline_spec(now_ms, r.1.timeout_ms),
{
    let id = new_request_id();
    let request = RpcReqMsg::new(id.clone(), api_id, body);
    let call = PendingCall::start(id, now_ms, timeout_ms, default_timeout_ms);
    (request, call)
}

impl Reply {
    /// Reads a reply envelope: the status comes from the header's `status`
    /// member, and is taken as success where the header gives none.
    pub fn from_message(msg: RpcRespMsg) -> (r: Reply)
        ensures
            r.request_id == msg.uuid,
            r.body == msg.body,
            r.context == msg.header,
            r.status == (match header_status(msg.header@) {
                Some(s) => s,
                None => SUCCESS,
            }),
            !json_parses(trimmed(msg.header@)) ==> r.status == SUCCESS,
    {
        let status = match parse_status_from_header(msg.header.as_str()) {
            Some(s) => s,
            None => SUCCESS,
        };
        Reply { request_id: msg.uuid, status, body: msg.body, context: msg.header }
    }

    /// Reads a reply that carries its status in a typed header; it has no
    /// header text to fall back on.
    pub fn from_response(resp: Response) -> (r: Reply)
        ensures
            r.request_id == resp.header.request_id,
            r.status == resp.header.status,
            r.body == resp.body,
            r.context@ == Seq::<char>::empty(),
    {
        Reply {
            request_id: resp.header.request_id,
            status: resp.header.status,
            body: resp.body,
            context: String::new(),
        }
    }
}

/// The message of a body that could not be decoded.
pub open spec fn malformed_message(detail: Seq<char>) -> Seq<char> {
    "Failed to deserialize response body: "@ + detail
}

/// Decodes the body of a success reply; a blank body reads as an empty object.
/// A body that is not JSON gives `Malformed`, with the success status and
/// the decoder's account of the fault.
pub fn decode_result(body: &str) -> (r: Result<serde_json::Value, RpcError>)
    ensures
        r is Ok == json_parses(body_document(body@)),
        r is Err ==> (match r->Err_0 {
            RpcError::Malformed { status, message } => status == SUCCESS && exists|d: Seq<char>|
                message@ == malformed_message(d),
            _ => false,
        }),
{
    match decode_response_body(body) {
        Ok(v) => Ok(v),
        Err(e) => {
            let detail = e.to_string();
            let message = "Failed to deserialize response body: ".to_owned().concat(detail.as_str());
            proof {
                assert(message@ == malformed_message(detail@));
            }
            Err(RpcError::Malformed { status: SUCCESS, message })
        },
    }
}

/// The result of a resolved call: the decoded body of its success reply, or
/// the error it ended with.
pub fn finish_call(outcome: Result<String, RpcError>) -> (r: Result<serde_json::Value, RpcError>)
    ensures
        outcome is Err ==> r == Err::<serde_json::Value, RpcError>(outcome->Err_0),
        outcome is Ok ==> (r is Ok == json_parses(body_document(outcome->Ok_0@))),
        outcome is Ok && r is Err ==> (match r->Err_0 {
            RpcError::Malformed { status, message } => status == SUCCESS && exists|d: Seq<char>|
                message@ == malformed_message(d),
            _ => false,
        }),
{
    match outcome {
        Ok(body) => decode_result(body.as_str()),
        Err(e) => Err(e),
    }
}

/// The key expression of an operation of a service, in a domain.
pub open spec fn key_expr_text(domain_id: u16, service: Seq<char>, api_id: Seq<char>) -> Seq<char> {
    "domain"@ + decimal_text(domain_id as int) + "/rpc/"@ + service + "/"@ + api_id
}

/// Writes the key expression that addresses operation `api_id` of `service`
/// in `domain_id`: `domain<id>/rpc/<service>/<api_id>`.
pub fn build_key_expr(domain_id: u16, service: &str, api_id: &str) -> (r: String)
    ensures
        r@ == key_expr_text(domain_id, service@, api_id@),
{
    let digits = decimal_string(domain_id as i64);
    "domain".to_owned().concat(digits.as_str()).concat("/rpc/").concat(service).concat("/").concat(
        api_id,
    )
}

} // verus!
