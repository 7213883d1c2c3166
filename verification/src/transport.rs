//! Chunks as they travel: payloads arrive as base64 text.

use vstd::prelude::*;

verus! {

/// Why the `base64` crate could not decode a text.
#[verifier::external_type_specification]
#[verifier::external_body]
pub struct ExDecodeError(base64::DecodeError);

/// The bytes that `text` stands for in standard base64 with padding, `None`
/// where it is not such a text: what the `base64` crate's standard engine
/// decodes it to.
pub uninterp spec fn base64_decoding(text: Seq<char>) -> Option<Seq<u8>>;

/// Calls `base64::Engine::decode` on the standard engine
/// (`general_purpose::STANDARD`). The outcome depends on the text alone; the
/// contract names it and says that the call fails exactly where the name is
/// `None`.
#[verifier::external_body]
fn decode_standard(text: &str) -> (outcome: Result<Vec<u8>, base64::DecodeError>)
    ensures
        match outcome {
            Ok(bytes) => base64_decoding(text@) == Some(bytes@),
            Err(_) => base64_decoding(text@) is None,
        },
{
    base64::Engine::decode(&base64::engine::general_purpose::STANDARD, text)
}

/// The payload that a base64 text carries, or `None` where the text is not
/// base64.
pub fn decode_payload(text: &str) -> (payload: Option<Vec<u8>>)
    ensures
        match payload {
            Some(bytes) => base64_decoding(text@) == Some(bytes@),
            None => base64_decoding(text@) is None,
        },
{
    match decode_standard(text) {
        Ok(bytes) => Some(bytes),
        Err(_) => None,
    }
}

} // verus!
