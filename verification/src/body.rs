//! Content-type-driven decoding of a request body into a tagged value.
//!
//! Malformed input never fails the request: a parse failure is itself data,
//! reported through an error-carrying variant.

use vstd::prelude::*;
use crate::outside::{
    form_parse_of, json_check_of, lossy_utf8, lossy_utf8_of, mime_parse_of, parse_content_type,
    parse_form, parse_json,
};

verus! {

/// The structured, semantically tagged representation of a request body.
/// Exactly one variant describes each request. File content never appears
/// here: `Multipart` carries only field names and file names.
pub enum DecodedBody {
    /// The body had zero length, whatever type was declared.
    Empty,
    /// A well-formed `application/json` body, as parsed.
    Json { content: serde_json::Value },
    /// A malformed `application/json` body: the parser's message and the
    /// bytes decoded lossily as UTF-8.
    JsonError { details: String, raw: String },
    /// A well-formed `application/x-www-form-urlencoded` body: its fields,
    /// later values overwriting earlier ones of the same name.
    Form { fields: Vec<(String, String)> },
    /// A malformed form body: the decoder's message and the lossy text.
    FormError { details: String, raw: String },
    /// An XML body, reported verbatim rather than interpreted.
    Xml { raw: String },
    /// Any other `text/*` body, decoded lossily as UTF-8.
    Text { raw: String },
    /// Any other body: metadata only, never the raw bytes.
    Binary { content_type: String, size_bytes: usize },
    /// A `multipart/form-data` body: text fields (later values overwrite
    /// earlier ones of the same name) and the names of file fields, whose
    /// content is discarded.
    Multipart { text_fields: Vec<(String, String)>, files_ignored: Vec<(String, String)> },
    /// The multipart framing itself could not be parsed.
    MultipartError { details: String },
    /// The body could not be fully read from the transport.
    ReadError,
}

/// The mapping that a pair sequence denotes, later pairs overwriting
/// earlier ones of the same key.
pub open spec fn pairs_map(ps: Seq<(Seq<char>, Seq<char>)>) -> Map<Seq<char>, Seq<char>>
    decreases ps.len(),
{
    if ps.len() == 0 {
        Map::empty()
    } else {
        pairs_map(ps.drop_last()).insert(ps.last().0, ps.last().1)
    }
}

/// No two pairs share a key.
pub open spec fn unique_keys(ps: Seq<(Seq<char>, Seq<char>)>) -> bool {
    forall|i: int, j: int| 0 <= i < j < ps.len() ==> ps[i].0 != ps[j].0
}

proof fn lemma_unique_keys_drop_last(ps: Seq<(Seq<char>, Seq<char>)>)
    requires
        unique_keys(ps),
        ps.len() > 0,
    ensures
        unique_keys(ps.drop_last()),
{
    assert forall|i: int, j: int|
        0 <= i < j < ps.drop_last().len() implies ps.drop_last()[i].0 != ps.drop_last()[j].0 by {
        assert(ps.drop_last()[i] == ps[i]);
        assert(ps.drop_last()[j] == ps[j]);
    }
}

/// Overwriting the value at position `j` of a unique-keyed pair sequence
/// is, at the mapping level, one insertion for that key.
proof fn lemma_pairs_map_update(ps: Seq<(Seq<char>, Seq<char>)>, j: int, v: Seq<char>)
    requires
        unique_keys(ps),
        0 <= j < ps.len(),
    ensures
        pairs_map(ps.update(j, (ps[j].0, v))) =~= pairs_map(ps).insert(ps[j].0, v),
    decreases ps.len(),
{
    let k = ps[j].0;
    let q = ps.update(j, (k, v));
    if j == ps.len() - 1 {
        assert(q.drop_last() =~= ps.drop_last());
        assert(q.last() == (k, v));
    } else {
        assert(q.drop_last() =~= ps.drop_last().update(j, (k, v)));
        assert(ps.drop_last()[j] == ps[j]);
        lemma_unique_keys_drop_last(ps);
        lemma_pairs_map_update(ps.drop_last(), j, v);
        assert(q.last() == ps.last());
        assert(ps.last() == ps[ps.len() - 1]);
        assert(ps.last().0 != k);
    }
}

/// Index of `key` among the field names, when it occurs.
fn find_key(fields: &Vec<(String, String)>, key: &String) -> (r: Option<usize>)
    ensures
        r matches Some(i) ==> i < fields@.len() && fields@[i as int].0@ == key@,
        r is None ==> forall|j: int| 0 <= j < fields@.len() ==> fields@[j].0@ != key@,
{
    let n = fields.len();
    let mut i: usize = 0;
    while i < n
        invariant
            0 <= i <= n,
            n == fields@.len(),
            forall|j: int| 0 <= j < i ==> fields@[j].0@ != key@,
        decreases n - i,
    {
        if fields[i].0.eq(key) {
            return Some(i);
        }
        i += 1;
    }
    None
}

/// Record `key = value`, overwriting an earlier value of the same key.
pub(crate) fn upsert_field(fields: &mut Vec<(String, String)>, key: String, value: String)
    requires
        unique_keys(old(fields).deep_view()),
    ensures
        unique_keys(final(fields).deep_view()),
        pairs_map(final(fields).deep_view()) == pairs_map(old(fields).deep_view()).insert(
            key@,
            value@,
        ),
{
    proof {
        assert(forall|i: int|
            0 <= i < fields@.len() ==> fields.deep_view()[i] == (fields@[i].0@, fields@[i].1@));
    }
    match find_key(fields, &key) {
        Some(i) => {
            let ghost before = fields.deep_view();
            fields.remove(i);
            fields.insert(i, (key, value));
            proof {
                assert(fields.deep_view() =~= before.update(i as int, (before[i as int].0, value@)));
                lemma_pairs_map_update(before, i as int, value@);
                assert forall|x: int, y: int|
                    0 <= x < y < fields.deep_view().len() implies fields.deep_view()[x].0
                    != fields.deep_view()[y].0 by {
                    assert(fields.deep_view()[x].0 == before[x].0);
                    assert(fields.deep_view()[y].0 == before[y].0);
                }
            }
        },
        None => {
            let ghost before = fields.deep_view();
            let ghost kv = (key@, value@);
            fields.push((key, value));
            proof {
                assert(fields.deep_view() =~= before.push(kv));
                assert(fields.deep_view().drop_last() =~= before);
                assert forall|x: int, y: int|
                    0 <= x < y < fields.deep_view().len() implies fields.deep_view()[x].0
                    != fields.deep_view()[y].0 by {
                    if y < before.len() {
                        assert(fields.deep_view()[x].0 == before[x].0);
                        assert(fields.deep_view()[y].0 == before[y].0);
                    } else {
                        assert(fields.deep_view()[x].0 == before[x].0);
                        assert(fields.deep_view()[y] == kv);
                    }
                }
            }
        },
    }
}

/// Fold decoded pairs into fields with unique names, the last value of a
/// repeated name winning.
fn dedup_pairs(pairs: Vec<(String, String)>) -> (r: Vec<(String, String)>)
    ensures
        unique_keys(r.deep_view()),
        pairs_map(r.deep_view()) == pairs_map(pairs.deep_view()),
{
    let ghost all = pairs.deep_view();
    let mut out: Vec<(String, String)> = Vec::new();
    let n = pairs.len();
    proof {
        assert(all.take(0) =~= Seq::empty());
    }
    for i in 0..n
        invariant
            n == pairs@.len(),
            n == all.len(),
            all == pairs.deep_view(),
            unique_keys(out.deep_view()),
            pairs_map(out.deep_view()) == pairs_map(all.take(i as int)),
    {
        let key = pairs[i].0.clone();
        let value = pairs[i].1.clone();
        proof {
            assert(all[i as int] == (pairs@[i as int].0@, pairs@[i as int].1@));
            assert(all.take(i as int + 1).drop_last() =~= all.take(i as int));
            assert(all.take(i as int + 1).last() == all[i as int]);
        }
        upsert_field(&mut out, key, value);
    }
    proof {
        assert(all.take(n as int) =~= all);
    }
    out
}

/// What decoding a non-empty body of the given MIME type, subtype and
/// essence must yield.
pub open spec fn dispatch_post(
    ty: Seq<char>,
    sub: Seq<char>,
    essence: Seq<char>,
    b: Seq<u8>,
    r: DecodedBody,
) -> bool {
    if ty == "application"@ && sub == "json"@ {
        match json_check_of(b) {
            None => r is Json,
            Some(msg) => r matches DecodedBody::JsonError { details, raw } && details@ == msg
                && raw@ == lossy_utf8_of(b),
        }
    } else if ty == "application"@ && sub == "x-www-form-urlencoded"@ {
        match form_parse_of(b) {
            Ok(ps) => r matches DecodedBody::Form { fields } && unique_keys(fields.deep_view())
                && pairs_map(fields.deep_view()) == pairs_map(ps),
            Err(msg) => r matches DecodedBody::FormError { details, raw } && details@ == msg
                && raw@ == lossy_utf8_of(b),
        }
    } else if (ty == "application"@ || ty == "text"@) && sub == "xml"@ {
        r matches DecodedBody::Xml { raw } && raw@ == lossy_utf8_of(b)
    } else if ty == "text"@ {
        r matches DecodedBody::Text { raw } && raw@ == lossy_utf8_of(b)
    } else {
        r matches DecodedBody::Binary { content_type, size_bytes } && content_type@ == essence
            && size_bytes == b.len()
    }
}

/// What `decode_body` must yield: a read failure is reported as such, an
/// empty body is `Empty` whatever type was declared, and otherwise the
/// declared content type (defaulting to `application/octet-stream` when
/// missing or unparseable) picks the decoder.
pub open spec fn decode_post(ct: Seq<char>, body: Option<Vec<u8>>, r: DecodedBody) -> bool {
    match body {
        None => r is ReadError,
        Some(bytes) => if bytes@.len() == 0 {
            r is Empty
        } else {
            match mime_parse_of(ct) {
                Some(p) => dispatch_post(p.0, p.1, p.2, bytes@, r),
                None => r matches DecodedBody::Binary { content_type, size_bytes }
                    && content_type@ == "application/octet-stream"@
                    && size_bytes == bytes@.len(),
            }
        },
    }
}

/// Decode a non-empty body against its parsed MIME type.
fn dispatch(ty: String, sub: String, essence: String, bytes: Vec<u8>) -> (r: DecodedBody)
    ensures
        dispatch_post(ty@, sub@, essence@, bytes@, r),
{
    let application = String::from_str("application");
    let text = String::from_str("text");
    if ty == application && sub == String::from_str("json") {
        match parse_json(&bytes) {
            Ok(content) => DecodedBody::Json { content },
            Err(details) => DecodedBody::JsonError { details, raw: lossy_utf8(&bytes) },
        }
    } else if ty == application && sub == String::from_str("x-www-form-urlencoded") {
        match parse_form(&bytes) {
            Ok(pairs) => DecodedBody::Form { fields: dedup_pairs(pairs) },
            Err(details) => DecodedBody::FormError { details, raw: lossy_utf8(&bytes) },
        }
    } else if (ty == application || ty == text) && sub == String::from_str("xml") {
        DecodedBody::Xml { raw: lossy_utf8(&bytes) }
    } else if ty == text {
        DecodedBody::Text { raw: lossy_utf8(&bytes) }
    } else {
        DecodedBody::Binary { content_type: essence, size_bytes: bytes.len() }
    }
}

/// Decode a fully read (or unreadable: `None`) request body against the
/// declared content-type header value.
pub fn decode_body(content_type: &str, body: Option<Vec<u8>>) -> (r: DecodedBody)
    ensures
        decode_post(content_type@, body, r),
{
    match body {
        None => DecodedBody::ReadError,
        Some(bytes) => {
            if bytes.len() == 0 {
                DecodedBody::Empty
            } else {
                match parse_content_type(content_type) {
                    Some(parts) => dispatch(parts.0, parts.1, parts.2, bytes),
                    None => DecodedBody::Binary {
                        content_type: String::from_str("application/octet-stream"),
                        size_bytes: bytes.len(),
                    },
                }
            }
        },
    }
}

} // verus!
