//! Standard base64 decoding of the data-URL payload.
//!
//! The payload of a PNG data URL is standard base64 (RFC 4648, standard
//! alphabet, with padding). The encoding itself is done by the `base64`
//! crate; this module states what its `STANDARD` engine accepts and
//! returns, and proves the round trip of the decode step on top of that.

use vstd::prelude::*;

verus! {

/// The standard base64 encoding of `bytes`: RFC 4648 standard alphabet,
/// with canonical `=` padding, as produced by the `base64` crate's
/// `general_purpose::STANDARD` engine.
pub uninterp spec fn base64_chars(bytes: Seq<u8>) -> Seq<char>;

/// Whether `s` is a well-formed standard base64 string with canonical
/// padding, that is, the encoding of some byte sequence.
pub open spec fn is_base64(s: Seq<char>) -> bool {
    exists|bytes: Seq<u8>| base64_chars(bytes) == s
}

/// Relies on base64's `Engine::decode` on the `general_purpose::STANDARD`
/// engine: its config requires canonical padding and rejects non-zero
/// trailing bits, so it accepts exactly the canonical standard-alphabet
/// encodings, and on success returns the bytes whose encoding the input
/// is. A failure is converted to the description of the crate's
/// `DecodeError`. An empty input decodes to no bytes, and only an empty
/// input does: every non-empty encoding the engine accepts has at least
/// one four-character group.
#[verifier::external_body]
pub(crate) fn decode_standard(s: &str) -> (r: Result<Vec<u8>, String>)
    ensures
        r matches Ok(bytes) ==> base64_chars(bytes@) == s@,
        r is Ok <==> is_base64(s@),
        r matches Ok(bytes) ==> (bytes@.len() == 0 <==> s@.len() == 0),
{
    match base64::Engine::decode(&base64::engine::general_purpose::STANDARD, s) {
        Ok(bytes) => Ok(bytes),
        Err(e) => Err(format!("{}", e)),
    }
}

/// Relies on base64's `Engine::encode` on the `general_purpose::STANDARD`
/// engine: the canonical standard-alphabet encoding of the bytes, a
/// function of the bytes alone.
#[verifier::external_body]
fn encode_standard(bytes: &[u8]) -> (r: String)
    ensures
        r@ == base64_chars(bytes@),
{
    base64::Engine::encode(&base64::engine::general_purpose::STANDARD, bytes)
}

/// Round trip of the decode step: whenever a payload decodes successfully,
/// re-encoding the decoded bytes reproduces the original payload exactly.
pub fn reencode_payload(s: &str) -> (r: Option<String>)
    ensures
        r matches Some(t) ==> t@ == s@,
        r is Some <==> is_base64(s@),
{
    match decode_standard(s) {
        Ok(bytes) => Some(encode_standard(bytes.as_slice())),
        Err(_) => None,
    }
}

} // verus!
