use vstd::prelude::*;

verus! {

#[verifier::external_type_specification]
#[verifier::external_body]
pub struct ExValue(serde_json::Value);

/// Whether serde_json accepts the bytes as one JSON document.
pub uninterp spec fn json_accepts(bytes: Seq<u8>) -> bool;

/// The string members, as in `text_members`, of the document that serde_json
/// parses from the bytes.
pub uninterp spec fn doc_texts(bytes: Seq<u8>) -> Map<Seq<char>, Seq<u8>>;

/// The integer members, as in `uint_members`, of the document that serde_json
/// parses from the bytes.
pub uninterp spec fn doc_uints(bytes: Seq<u8>) -> Map<Seq<char>, u64>;

/// The members of a parsed document whose value is a JSON string, as UTF-8
/// bytes; empty when the document is not an object.
pub uninterp spec fn text_members(doc: serde_json::Value) -> Map<Seq<char>, Seq<u8>>;

/// The members of a parsed document whose value is a non-negative integer
/// that fits a `u64`; empty when the document is not an object.
pub uninterp spec fn uint_members(doc: serde_json::Value) -> Map<Seq<char>, u64>;

/// The JSON string literal, quotes and escapes included, that serde_json
/// writes for a text.
pub uninterp spec fn json_quoted(s: Seq<char>) -> Seq<u8>;

/// Relies on serde_json::from_slice: it parses the bytes as one JSON
/// document, or fails, and which document it gives depends on the bytes alone.
#[verifier::external_body]
pub(crate) fn parse_document(bytes: &[u8]) -> (r: Option<serde_json::Value>)
    ensures
        r.is_some() == json_accepts(bytes@),
        r matches Some(d) ==> text_members(d) == doc_texts(bytes@) && uint_members(d) == doc_uints(
            bytes@,
        ),
{
    serde_json::from_slice::<serde_json::Value>(bytes).ok()
}

/// Relies on serde_json's `Value::get` with a `&str` key and `Value::as_str`:
/// a member of an object, present only when its value is a string.
#[verifier::external_body]
pub(crate) fn text_member(doc: &serde_json::Value, key: &str) -> (r: Option<Vec<u8>>)
    ensures
        r.is_some() == text_members(*doc).contains_key(key@),
        r matches Some(b) ==> b@ == text_members(*doc)[key@],
{
    doc.get(key).and_then(|m| m.as_str()).map(|s| s.as_bytes().to_vec())
}

/// Relies on serde_json's `Value::get` with a `&str` key and `Value::as_u64`:
/// a member of an object, present only when its value is an integer in the
/// range of `u64`.
#[verifier::external_body]
pub(crate) fn uint_member(doc: &serde_json::Value, key: &str) -> (r: Option<u64>)
    ensures
        r.is_some() == uint_members(*doc).contains_key(key@),
        r matches Some(n) ==> n == uint_members(*doc)[key@],
{
    doc.get(key).and_then(|m| m.as_u64())
}

/// Relies on serde_json::to_string on a string: the quoted and escaped JSON
/// string literal for it. For a string it cannot fail, since it only escapes
/// the text into a `Vec`, and writing to a `Vec` does not fail.
#[verifier::external_body]
pub(crate) fn quote_text(s: &String) -> (r: Option<Vec<u8>>)
    ensures
        r is Some,
        r matches Some(b) ==> b@ == json_quoted(s@),
{
    serde_json::to_string(s).ok().map(|t| t.into_bytes())
}

} // verus!
