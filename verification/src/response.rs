//! Assembly of the per-request diagnostic response.

use vstd::prelude::*;
use crate::body::{decode_body, decode_post, DecodedBody};
use crate::client_ip::{resolve_client_ip, spec_client_ip};
use crate::multipart::{decode_multipart, multipart_post, MultipartPart};
use crate::outside::{elapsed_micros, new_request_id, now_unix_seconds};
use crate::text::str_has_prefix;

verus! {

/// The borrowed view of an inbound request that the core consumes: plain
/// strings for the request line, the three recognized header values (empty
/// when absent), and the peer socket address.
pub struct RequestMeta {
    pub method: String,
    pub protocol: String,
    pub uri: String,
    /// Value of the `x-forwarded-for` header, or empty.
    pub forwarded_for: String,
    /// Value of the `x-real-ip` header, or empty.
    pub real_ip: String,
    /// Value of the `content-type` header, or empty.
    pub content_type: String,
    pub peer_ip: String,
    pub peer_port: u16,
}

/// How the request body was consumed: read whole into bytes (`None` when
/// the transport failed while draining them), or streamed as multipart
/// parts (`Err` when the multipart framing could not be parsed).
pub enum BodyOutcome {
    Bytes(Option<Vec<u8>>),
    MultipartParts(Result<Vec<MultipartPart>, String>),
}

/// The addresses reported for a request.
pub struct IpDetails {
    pub client_ip: String,
    pub peer_ip: String,
    pub port: u16,
}

/// The structured payload returned for every request. Immutable once
/// constructed; serialized by the surrounding server and discarded.
pub struct DiagnosticResponse {
    /// Fresh random identifier of this request, 36 characters.
    pub request_id: String,
    /// Server identity, a `name/version` string.
    pub server: String,
    /// Host identity, resolved once at process start.
    pub hostname: String,
    /// Request arrival instant, whole seconds since the Unix epoch.
    pub at_unix_seconds: i64,
    /// Time spent inside the handler, in whole microseconds.
    pub processing_micros: u64,
    pub ip_details: IpDetails,
    pub method: String,
    pub protocol: String,
    pub uri: String,
    pub body: DecodedBody,
}

/// Whether the declared content type selects the multipart decoder: the
/// raw header value starts with `multipart/form-data`, whatever parameters
/// follow.
pub fn wants_multipart(content_type: &str) -> (r: bool)
    ensures
        r == "multipart/form-data"@.is_prefix_of(content_type@),
{
    str_has_prefix("multipart/form-data", content_type)
}

/// What the decoded body of the response must be for the way the body was
/// consumed.
pub open spec fn body_post(content_type: Seq<char>, outcome: BodyOutcome, r: DecodedBody) -> bool {
    match outcome {
        BodyOutcome::Bytes(bytes) => decode_post(content_type, bytes, r),
        BodyOutcome::MultipartParts(parts) => multipart_post(parts, r),
    }
}

/// Assemble the diagnostic response for one request: resolve the client
/// address from the proxy headers, decode the consumed body, stamp a fresh
/// request identifier, the arrival time and the processing time measured
/// from `start`, and echo the request line and server identity.
pub fn inspect(
    meta: RequestMeta,
    outcome: BodyOutcome,
    server: String,
    hostname: String,
    start: std::time::Instant,
) -> (r: DiagnosticResponse)
    ensures
        r.ip_details.client_ip@ == spec_client_ip(meta.forwarded_for@, meta.real_ip@, meta.peer_ip@),
        meta.forwarded_for@.len() == 0 && meta.real_ip@.len() == 0 ==> r.ip_details.client_ip@
            == meta.peer_ip@,
        r.ip_details.peer_ip == meta.peer_ip,
        r.ip_details.port == meta.peer_port,
        r.method == meta.method,
        r.protocol == meta.protocol,
        r.uri == meta.uri,
        r.server == server,
        r.hostname == hostname,
        r.request_id@.len() == 36,
        body_post(meta.content_type@, outcome, r.body),
{
    let request_id = new_request_id();
    let body = match outcome {
        BodyOutcome::Bytes(bytes) => decode_body(meta.content_type.as_str(), bytes),
        BodyOutcome::MultipartParts(parts) => decode_multipart(parts),
    };
    let client_ip = resolve_client_ip(
        meta.forwarded_for.as_str(),
        meta.real_ip.as_str(),
        meta.peer_ip.as_str(),
    );
    DiagnosticResponse {
        request_id,
        server,
        hostname,
        at_unix_seconds: now_unix_seconds(),
        processing_micros: elapsed_micros(&start),
        ip_details: IpDetails { client_ip, peer_ip: meta.peer_ip, port: meta.peer_port },
        method: meta.method,
        protocol: meta.protocol,
        uri: meta.uri,
        body,
    }
}

} // verus!
