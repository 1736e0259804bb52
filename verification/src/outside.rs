//! Trusted boundary around the outside crates the decoder relies on.
//!
//! Each item here either declares an outside type or wraps one outside
//! call; the bodies only make the call and convert values. Everything the
//! rest of the crate knows of the outside world is stated in the contracts
//! in this file.

use vstd::prelude::*;

verus! {

#[verifier::external_type_specification]
#[verifier::external_body]
pub struct ExValue(serde_json::Value);

#[verifier::external_type_specification]
#[verifier::external_body]
pub struct ExInstant(std::time::Instant);

/// What `mime::Mime`'s `FromStr` yields on a content-type header value:
/// `None` when the value is not a well-formed MIME type, otherwise the
/// parsed type, subtype and essence (`type/subtype`) strings.
pub uninterp spec fn mime_parse_of(value: Seq<char>) -> Option<(Seq<char>, Seq<char>, Seq<char>)>;

/// Relies on `mime::Mime`'s `FromStr` together with `type_`, `subtype` and
/// `essence_str`: parses a content-type header value into its MIME type,
/// subtype and essence, which the crate stores in normalized (lower-case)
/// form.
#[verifier::external_body]
pub(crate) fn parse_content_type(value: &str) -> (r: Option<(String, String, String)>)
    ensures
        (r is Some) == (mime_parse_of(value@) is Some),
        r matches Some(p) ==> mime_parse_of(value@) == Some((p.0@, p.1@, p.2@)),
{
    match value.parse::<mime::Mime>() {
        Ok(m) => Some((
            m.type_().as_str().to_string(),
            m.subtype().as_str().to_string(),
            m.essence_str().to_string(),
        )),
        Err(_) => None,
    }
}

/// Whether `serde_json::from_slice` accepts these bytes as strict JSON:
/// `None` when they parse, otherwise the parser's error message.
pub uninterp spec fn json_check_of(bytes: Seq<u8>) -> Option<Seq<char>>;

/// Relies on `serde_json::from_slice::<Value>`: a strict JSON parse of the
/// body bytes; a failure carries the parser's message.
#[verifier::external_body]
pub(crate) fn parse_json(bytes: &Vec<u8>) -> (r: Result<serde_json::Value, String>)
    ensures
        (r is Ok) == (json_check_of(bytes@) is None),
        r matches Err(e) ==> json_check_of(bytes@) == Some(e@),
{
    match serde_json::from_slice::<serde_json::Value>(bytes) {
        Ok(v) => Ok(v),
        Err(e) => Err(e.to_string()),
    }
}

/// What `serde_urlencoded::from_bytes` yields on these bytes: the decoded
/// key/value pairs in arrival order, or the decoder's error message.
pub uninterp spec fn form_parse_of(bytes: Seq<u8>) -> Result<
    Seq<(Seq<char>, Seq<char>)>,
    Seq<char>,
>;

/// Relies on `serde_urlencoded::from_bytes::<Vec<(String, String)>>`:
/// decodes an `application/x-www-form-urlencoded` body into its key/value
/// pairs in arrival order.
#[verifier::external_body]
pub(crate) fn parse_form(bytes: &Vec<u8>) -> (r: Result<Vec<(String, String)>, String>)
    ensures
        (r is Ok) == (form_parse_of(bytes@) is Ok),
        r matches Ok(pairs) ==> form_parse_of(bytes@) matches Ok(ps) && ps == pairs.deep_view(),
        r matches Err(e) ==> form_parse_of(bytes@) matches Err(m) && m == e@,
{
    match serde_urlencoded::from_bytes::<Vec<(String, String)>>(bytes) {
        Ok(pairs) => Ok(pairs),
        Err(e) => Err(e.to_string()),
    }
}

/// What `String::from_utf8_lossy` yields on these bytes: the body decoded
/// as UTF-8, with invalid sequences replaced by U+FFFD.
pub uninterp spec fn lossy_utf8_of(bytes: Seq<u8>) -> Seq<char>;

/// Relies on `String::from_utf8_lossy`: decodes bytes as UTF-8, replacing
/// invalid sequences with the replacement character; the result depends on
/// the bytes alone.
#[verifier::external_body]
pub(crate) fn lossy_utf8(bytes: &Vec<u8>) -> (r: String)
    ensures
        r@ == lossy_utf8_of(bytes@),
{
    String::from_utf8_lossy(bytes).into_owned()
}

/// Relies on `uuid::Uuid::new_v4` and its hyphenated `Display` form: a
/// fresh 128-bit random identifier printed as 36 characters. Nothing more
/// is promised of the value, which is random.
#[verifier::external_body]
pub(crate) fn new_request_id() -> (r: String)
    ensures
        r@.len() == 36,
{
    uuid::Uuid::new_v4().to_string()
}

/// Relies on `chrono::Utc::now` and `timestamp`: the current time as whole
/// seconds since the Unix epoch. Nothing is promised of the value.
#[verifier::external_body]
pub(crate) fn now_unix_seconds() -> (r: i64) {
    chrono::Utc::now().timestamp()
}

/// Relies on `std::time::Instant::elapsed`: the monotonic time since
/// `start`, in whole microseconds. Nothing is promised of the value.
#[verifier::external_body]
pub(crate) fn elapsed_micros(start: &std::time::Instant) -> (r: u64) {
    start.elapsed().as_micros() as u64
}

} // verus!
