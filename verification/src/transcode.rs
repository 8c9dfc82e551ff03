//! The transcoding boundary: every buffer that crosses between host and
//! guest is UTF-8 text, and a supplied data payload must be a valid JSON
//! document.
//!
//! The conversions themselves are performed by trusted collaborators; their
//! observable behaviour is pinned here so the call protocol can state
//! exactly which payloads are accepted.

use vstd::prelude::*;

use vstd::utf8::{decode_utf8, valid_utf8};

verus! {

/// Whether the JSON parser accepts `bytes` as one valid JSON document.
/// The result is a function of the bytes alone.
pub uninterp spec fn json_accepted(bytes: Seq<u8>) -> bool;

/// Relies on serde_json::from_slice::<serde_json::Value>: parsing a byte
/// slice succeeds exactly when it holds one valid JSON document, a
/// deterministic function of the bytes.
#[verifier::external_body]
pub(crate) fn json_is_valid(bytes: &[u8]) -> (r: bool)
    ensures
        r == json_accepted(bytes@),
{
    serde_json::from_slice::<serde_json::Value>(bytes).is_ok()
}

/// Relies on String::from_utf8: succeeds exactly on valid UTF-8 input and
/// decodes it to the character sequence that vstd's UTF-8 model gives.
#[verifier::external_body]
pub(crate) fn decode_utf8_text(bytes: Vec<u8>) -> (r: Option<String>)
    ensures
        r is Some <==> valid_utf8(bytes@),
        r matches Some(s) ==> s@ == decode_utf8(bytes@),
{
    String::from_utf8(bytes).ok()
}

} // verus!
