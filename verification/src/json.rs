//! JSON parsing and serialization, supplied by `serde_json`.
//!
//! A parsed document is carried as an opaque `serde_json::Value`.  Its
//! content is identified by [`compact_text`], the text that the compact
//! serializer produces for it: two values with the same compact text are
//! structurally equal, so that sequence of characters serves as the
//! mathematical identity of a document throughout the library's contracts.

use vstd::prelude::*;

verus! {

#[verifier::external_type_specification]
#[verifier::external_body]
pub struct ExValue(serde_json::Value);

#[verifier::external_type_specification]
#[verifier::external_body]
pub struct ExError(serde_json::Error);

/// The content a `serde_json::Value` holds, identified by the text that
/// `serde_json::to_string` produces for it (its compact serialization).
pub uninterp spec fn compact_text(v: serde_json::Value) -> Seq<char>;

/// What `serde_json::from_str::<Value>` yields on a given text: `None` when
/// parsing fails (text that is not valid JSON, or that nests deeper than the
/// parser's recursion limit), otherwise the compact text of the parsed value.
pub uninterp spec fn parsed_text(s: Seq<char>) -> Option<Seq<char>>;

/// What `serde_json::Value::is_array` returns on the value whose compact
/// text is `s`.
pub uninterp spec fn text_is_array(s: Seq<char>) -> bool;

/// What `serde_json::to_string_pretty` produces for the value whose compact
/// text is `s`.
pub uninterp spec fn pretty_text(s: Seq<char>) -> Seq<char>;

/// Whether a text parses as JSON whose top-level value is an array.
pub open spec fn is_array_text(s: Seq<char>) -> bool {
    parsed_text(s) matches Some(t) && text_is_array(t)
}

/// Relies on `serde_json::from_str::<Value>`: parsing depends on the text
/// alone and fails on text that is not valid JSON or that nests deeper than
/// the parser's recursion limit.  Every value it produces therefore nests
/// within that limit, so serializing such a value — compactly or pretty —
/// yields text this same parser accepts again and reads back as the very
/// same value.
#[verifier::external_body]
pub(crate) fn parse_value(s: &str) -> (r: Result<serde_json::Value, serde_json::Error>)
    ensures
        r is Ok <==> parsed_text(s@) is Some,
        r is Ok ==> parsed_text(s@) == Some(compact_text(r->Ok_0)),
        r matches Ok(v) ==> parsed_text(compact_text(v)) == Some(compact_text(v)),
        r matches Ok(v) ==> parsed_text(pretty_text(compact_text(v))) == Some(compact_text(v)),
{
    serde_json::from_str::<serde_json::Value>(s)
}

/// Relies on `serde_json::Value::is_array`: true exactly on `Value::Array`.
#[verifier::external_body]
pub(crate) fn value_is_array(v: &serde_json::Value) -> (r: bool)
    ensures
        r == text_is_array(compact_text(*v)),
{
    v.is_array()
}

/// Relies on `serde_json::to_string`: the compact serialization.  On a
/// `Value` it cannot fail, since the writer is an in-memory buffer and every
/// object key is a string (see serde_json's `Serialize` impl for `Value`).
#[verifier::external_body]
pub(crate) fn value_to_compact(v: &serde_json::Value) -> (r: Result<String, serde_json::Error>)
    ensures
        r is Ok,
        r matches Ok(out) ==> out@ == compact_text(*v),
{
    serde_json::to_string(v)
}

/// Relies on `serde_json::to_string_pretty`: the pretty-printed
/// serialization, differing from the compact text only in layout.  On a
/// `Value` it cannot fail, for the same reason as the compact serializer.
#[verifier::external_body]
pub(crate) fn value_to_pretty(v: &serde_json::Value) -> (r: Result<String, serde_json::Error>)
    ensures
        r is Ok,
        r matches Ok(out) ==> out@ == pretty_text(compact_text(*v)),
{
    serde_json::to_string_pretty(v)
}

/// Relies on `serde_json::Value::Array`: the empty array value.  It
/// serializes compactly to `[]`, a two-character text that the parser
/// accepts and reads back as the same empty array.
#[verifier::external_body]
pub(crate) fn empty_array_value() -> (r: serde_json::Value)
    ensures
        compact_text(r) == "[]"@,
        parsed_text(compact_text(r)) == Some(compact_text(r)),
        text_is_array(compact_text(r)),
{
    serde_json::Value::Array(Vec::new())
}

} // verus!
