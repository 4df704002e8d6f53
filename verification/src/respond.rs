//! Synthesized responses: the health answer and the client-visible shapes of
//! every gateway failure. Each failure class of the forwarder and the static
//! responder terminates in exactly one of these well-formed plans.

use vstd::prelude::*;

verus! {

/// The payload of a response the gateway synthesizes or relays: text for the
/// fixed bodies, raw bytes for bundled assets.
pub enum BodyData {
    Text(String),
    Bytes(Vec<u8>),
}

/// A fully determined HTTP response: status code, optional content type, and
/// body. The transport layer turns a plan into a wire response verbatim.
pub struct ResponsePlan {
    pub status: u16,
    pub content_type: Option<String>,
    pub body: BodyData,
}

/// The liveness answer: `200 ok`, unconditionally.
pub open spec fn is_health_plan(p: ResponsePlan) -> bool {
    &&& p.status == 200
    &&& p.content_type is None
    &&& p.body matches BodyData::Text(t) && t@ == "ok"@
}

/// Body sent with status 502 when a backend is unreachable: a JSON object
/// whose top-level `error` field names the failure and whose `details` field
/// carries the transport's description of the cause.
pub open spec fn json_error_body(details: Seq<char>) -> Seq<char> {
    "{\"error\": \"Service unavailable\", \"details\": \""@ + details + "\"}"@
}

/// The upstream-unavailable answer: 502 with the structured JSON body.
pub open spec fn is_bad_gateway_plan(p: ResponsePlan, details: Seq<char>) -> bool {
    &&& p.status == 502
    &&& p.content_type matches Some(ct) && ct@ == "application/json"@
    &&& p.body matches BodyData::Text(t) && t@ == json_error_body(details)
}

/// The answer to a request whose derived target URL does not parse: 400 with
/// a plain-text body.
pub open spec fn is_bad_request_plan(p: ResponsePlan) -> bool {
    &&& p.status == 400
    &&& p.content_type is None
    &&& p.body matches BodyData::Text(t) && t@ == "Invalid target URL"@
}

/// The answer when the outbound request cannot be assembled from well-formed
/// inputs: 500 with a plain-text body.
pub open spec fn is_internal_error_plan(p: ResponsePlan) -> bool {
    &&& p.status == 500
    &&& p.content_type is None
    &&& p.body matches BodyData::Text(t) && t@ == "Failed to build proxy request"@
}

/// The answer when the asset bundle lacks even the SPA entry document: the
/// only genuine not-found.
pub open spec fn is_missing_bundle_plan(p: ResponsePlan) -> bool {
    &&& p.status == 404
    &&& p.content_type matches Some(ct) && ct@ == "text/plain"@
    &&& p.body matches BodyData::Text(t) && t@ == "UI assets not found"@
}

/// Answers a liveness probe; performs no dependency checks.
pub fn health_response() -> (r: ResponsePlan)
    ensures
        is_health_plan(r),
{
    ResponsePlan {
        status: 200,
        content_type: None,
        body: BodyData::Text(String::from_str("ok")),
    }
}

/// Answer for an inbound request whose derived target URL is malformed.
pub fn bad_request_response() -> (r: ResponsePlan)
    ensures
        is_bad_request_plan(r),
{
    ResponsePlan {
        status: 400,
        content_type: None,
        body: BodyData::Text(String::from_str("Invalid target URL")),
    }
}

/// Answer for a failure assembling the outbound request: a gateway defect,
/// not a client or backend issue.
pub fn internal_error_response() -> (r: ResponsePlan)
    ensures
        is_internal_error_plan(r),
{
    ResponsePlan {
        status: 500,
        content_type: None,
        body: BodyData::Text(String::from_str("Failed to build proxy request")),
    }
}

/// Answer for an unreachable backend: 502 with a machine-parseable JSON body
/// naming the upstream cause, so the caller can tell a backend outage from a
/// gateway fault.
pub fn bad_gateway_response(details: &str) -> (r: ResponsePlan)
    ensures
        is_bad_gateway_plan(r, details@),
{
    let body = String::from_str("{\"error\": \"Service unavailable\", \"details\": \"").concat(
        details,
    ).concat("\"}");
    proof {
        assert(body@ =~= json_error_body(details@));
    }
    ResponsePlan {
        status: 502,
        content_type: Some(String::from_str("application/json")),
        body: BodyData::Text(body),
    }
}

/// Answer when the bundle holds neither the requested asset nor the entry
/// document.
pub fn missing_bundle_response() -> (r: ResponsePlan)
    ensures
        is_missing_bundle_plan(r),
{
    ResponsePlan {
        status: 404,
        content_type: Some(String::from_str("text/plain")),
        body: BodyData::Text(String::from_str("UI assets not found")),
    }
}

} // verus!
