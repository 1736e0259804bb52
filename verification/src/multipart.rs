//! Decoding of `multipart/form-data` fields into text fields and ignored
//! file entries.
//!
//! The surrounding server streams the parts and hands over only their
//! metadata and text content; file content is read and discarded upstream
//! and never reaches this module, so it cannot appear in the response.

use vstd::prelude::*;
use crate::body::{pairs_map, unique_keys, DecodedBody};

verus! {

/// What one multipart part carried.
pub enum PartContent {
    /// The part had a file name attached: only that name is kept.
    File { filename: String },
    /// The part was a text field with this value.
    Text { value: String },
    /// The part was a text field whose bytes were not valid text; it is
    /// silently skipped.
    Undecodable,
}

/// One field of a multipart stream, in arrival order.
pub struct MultipartPart {
    /// The field name, when the part carried one.
    pub name: Option<String>,
    pub content: PartContent,
}

/// The effective field name: a missing name falls back to a placeholder.
pub open spec fn part_name(p: MultipartPart) -> Seq<char> {
    match p.name {
        Some(n) => n@,
        None => "unnamed_field"@,
    }
}

/// The `{field_name, original_filename}` pairs of the file-bearing parts,
/// in arrival order.
pub open spec fn spec_files(ps: Seq<MultipartPart>) -> Seq<(Seq<char>, Seq<char>)>
    decreases ps.len(),
{
    if ps.len() == 0 {
        Seq::empty()
    } else {
        spec_files(ps.drop_last()) + match ps.last().content {
            PartContent::File { filename } => seq![(part_name(ps.last()), filename@)],
            _ => Seq::empty(),
        }
    }
}

/// The text-field mapping: parts with a file name or undecodable text do
/// not contribute; a later text field overwrites an earlier one of the
/// same name.
pub open spec fn spec_text_map(ps: Seq<MultipartPart>) -> Map<Seq<char>, Seq<char>>
    decreases ps.len(),
{
    if ps.len() == 0 {
        Map::empty()
    } else {
        match ps.last().content {
            PartContent::Text { value } => spec_text_map(ps.drop_last()).insert(
                part_name(ps.last()),
                value@,
            ),
            _ => spec_text_map(ps.drop_last()),
        }
    }
}

/// What decoding a multipart stream outcome must yield: a framing failure
/// carries the error as data, and otherwise the parts are folded into text
/// fields and ignored file entries.
pub open spec fn multipart_post(outcome: Result<Vec<MultipartPart>, String>, r: DecodedBody) -> bool {
    match outcome {
        Err(e) => r matches DecodedBody::MultipartError { details } && details@ == e@,
        Ok(parts) => r matches DecodedBody::Multipart { text_fields, files_ignored }
            && unique_keys(text_fields.deep_view())
            && pairs_map(text_fields.deep_view()) == spec_text_map(parts@)
            && files_ignored.deep_view() == spec_files(parts@),
    }
}

/// Fold the streamed multipart outcome into its decoded body: the text
/// fields as a last-write-wins mapping and the file fields as name pairs
/// in arrival order, their content already discarded.
pub fn decode_multipart(outcome: Result<Vec<MultipartPart>, String>) -> (r: DecodedBody)
    ensures
        multipart_post(outcome, r),
{
    let parts = match outcome {
        Err(details) => {
            return DecodedBody::MultipartError { details };
        },
        Ok(parts) => parts,
    };
    let ghost all = parts@;
    let n = parts.len();
    let mut text_fields: Vec<(String, String)> = Vec::new();
    let mut files_ignored: Vec<(String, String)> = Vec::new();
    proof {
        assert(all.take(0) =~= Seq::empty());
    }
    let mut i: usize = 0;
    while i < n
        invariant
            0 <= i <= n,
            n == parts@.len(),
            all == parts@,
            unique_keys(text_fields.deep_view()),
            pairs_map(text_fields.deep_view()) == spec_text_map(all.take(i as int)),
            files_ignored.deep_view() == spec_files(all.take(i as int)),
        decreases n - i,
    {
        proof {
            assert(all.take(i as int + 1).drop_last() =~= all.take(i as int));
            assert(all.take(i as int + 1).last() == all[i as int]);
        }
        let part = &parts[i];
        let name = match &part.name {
            Some(n) => n.clone(),
            None => String::from_str("unnamed_field"),
        };
        proof {
            assert(name@ == part_name(all[i as int]));
        }
        match &part.content {
            PartContent::File { filename } => {
                let ghost before = files_ignored.deep_view();
                files_ignored.push((name, filename.clone()));
                proof {
                    assert(files_ignored.deep_view() =~= before.push(
                        (part_name(all[i as int]), all[i as int].content->filename@),
                    ));
                    assert(files_ignored.deep_view() =~= spec_files(all.take(i as int + 1)));
                }
            },
            PartContent::Text { value } => {
                crate::body::upsert_field(&mut text_fields, name, value.clone());
            },
            PartContent::Undecodable => {},
        }
        i += 1;
    }
    proof {
        assert(all.take(n as int) =~= all);
    }
    DecodedBody::Multipart { text_fields, files_ignored }
}

} // verus!
