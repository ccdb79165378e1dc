//! JSON texts.
use crate::text::owned;
use vstd::prelude::*;

verus! {

/// The compact text of the JSON document that a text holds, and nothing where
/// it holds none: what `serde_json::to_string` writes for the document that
/// `serde_json::from_str` reads.
pub uninterp spec fn json_compact(text: Seq<char>) -> Option<Seq<char>>;

/// Reads a JSON document with `serde_json::from_str` and writes it again with
/// `serde_json::to_string`. What comes out depends on the text alone, and is
/// called [`json_compact`].
#[verifier::external_body]
fn compact_json(text: &str) -> (out: Option<String>)
    ensures
        text_view(out) == json_compact(text@),
{
    match serde_json::from_str::<serde_json::Value>(text) {
        Ok(document) => serde_json::to_string(&document).ok(),
        Err(_) => None,
    }
}

/// A JSON text as it is, given the compact text of the document that it holds.
pub open spec fn checked_text(text: Seq<char>, compact: Option<Seq<char>>) -> Option<Seq<char>> {
    if compact is Some {
        Some(text)
    } else {
        None
    }
}

/// An optional text as a model.
pub open spec fn text_view(s: Option<String>) -> Option<Seq<char>> {
    match s {
        Some(x) => Some(x@),
        None => None,
    }
}

/// Keeps a JSON text as it is where it holds a document.
pub fn keep_checked_text(text: &str, compact: &Option<String>) -> (out: Option<String>)
    ensures
        text_view(out) == checked_text(text@, text_view(*compact)),
{
    match compact {
        Some(_) => Some(owned(text)),
        None => None,
    }
}

/// A JSON text as it is, where it holds a document.
pub open spec fn json_text(text: Seq<char>) -> Option<Seq<char>> {
    checked_text(text, json_compact(text))
}

/// Checks that a text holds a JSON document.
pub fn validate_json_text(value: &str) -> (out: Option<String>)
    ensures
        text_view(out) == json_text(value@),
{
    let compact = compact_json(value);
    keep_checked_text(value, &compact)
}

/// Writes the JSON document that a text holds in compact form.
pub fn normalize_jsonb_text(value: &str) -> (out: Option<String>)
    ensures
        text_view(out) == json_compact(value@),
{
    compact_json(value)
}

} // verus!
