//! Trusted bridges to the encoding crates: base64 for file payloads, JSON
//! string quoting and parsing for request and response bodies, and the
//! human-readable size rendering used by the storage report.
use vstd::prelude::*;

verus! {

/// The base64 rendering (RFC 4648, padded alphabet) of a byte sequence.
pub uninterp spec fn base64_of(bytes: Seq<u8>) -> Seq<char>;

/// Relies on `data_encoding::BASE64.encode`: the padded base64 rendering of
/// the input, four characters for every three input bytes begun.  Its length
/// check panics above `usize::MAX / 512` bytes, so such inputs are excluded.
#[verifier::external_body]
pub fn base64_string(data: &[u8]) -> (r: String)
    requires
        data@.len() <= usize::MAX / 512,
    ensures
        r@ == base64_of(data@),
        r@.len() == 4 * ((data@.len() + 2) / 3),
{
    data_encoding::BASE64.encode(data)
}

/// The JSON string literal that denotes a piece of text: surrounding quotes
/// and all required escapes included.
pub uninterp spec fn json_quoted(s: Seq<char>) -> Seq<char>;

/// Relies on `serde_json::to_string` on a string slice: the JSON string
/// literal denoting the text.  Serializing a string value cannot fail (the
/// documentation reserves failure for non-string map keys and failing
/// `Serialize` implementations), so the unwrap never runs.
#[verifier::external_body]
pub fn json_string(s: &str) -> (r: String)
    ensures
        r@ == json_quoted(s@),
{
    serde_json::to_string(s).unwrap()
}

/// What parsing a JSON document as one string value yields: the denoted text,
/// or nothing when the document is not a single well-formed JSON string.
pub uninterp spec fn json_parsed_string(s: Seq<char>) -> Option<Seq<char>>;

/// The error type of `serde_json`, opaque to the library; it is mapped to
/// [`crate::error::LinkError::JsonError`] right after each parse.
#[verifier::external_type_specification]
#[verifier::external_body]
pub struct ExJsonError(serde_json::Error);

/// Relies on `serde_json::from_str::<String>`: yields the text a JSON string
/// document denotes, and an error exactly when the document is not one.
#[verifier::external_body]
pub fn parse_json_string(s: &str) -> (r: Result<String, serde_json::Error>)
    ensures
        match r {
            Ok(v) => json_parsed_string(s@) == Some(v@),
            Err(_) => json_parsed_string(s@) is None,
        },
{
    serde_json::from_str::<String>(s)
}

/// The human-readable rendering of a byte count: the value scaled to the
/// largest fitting decimal unit, two decimals except for plain bytes.
pub uninterp spec fn human_size_of(bytes: u64) -> Seq<char>;

/// Relies on `byte_unit::Byte::from_bytes` followed by
/// `get_appropriate_unit(false)` and its `Display` rendering: a pure function
/// of the numeric value, such as `10.50 KB` for 10500.
#[verifier::external_body]
pub fn human_size(bytes: u64) -> (r: String)
    ensures
        r@ == human_size_of(bytes),
{
    byte_unit::Byte::from_bytes(bytes as u128).get_appropriate_unit(false).to_string()
}

} // verus!
