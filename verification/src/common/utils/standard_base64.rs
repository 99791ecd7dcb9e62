//! Base64 with the standard alphabet (`+` and `/`), as the `base64` crate
//! decodes it: unpadded for error details, padded for inline images.
use vstd::prelude::*;

use ::base64::Engine as _;

verus! {

/// What the `base64` crate's `STANDARD_NO_PAD` engine decodes `s` to
/// (`None` when it refuses `s`).
pub uninterp spec fn standard_no_pad_decode(s: Seq<char>) -> Option<Seq<u8>>;

/// What the `base64` crate's `STANDARD` engine (padding required) decodes
/// `s` to (`None` when it refuses `s`).
pub uninterp spec fn standard_decode(s: Seq<char>) -> Option<Seq<u8>>;

/// Decodes standard, unpadded Base64; the error is the crate's message.
///
/// Trusted: calls `base64::engine::general_purpose::STANDARD_NO_PAD.decode`,
/// a function of the input alone; its bytes are named
/// `standard_no_pad_decode`, and it fails exactly where that is `None`.
/// The error's text (`DecodeError`'s `Display`) is not described.
#[verifier::external_body]
pub(crate) fn standard_no_pad_decode_bytes(s: &str) -> (r: Result<Vec<u8>, String>)
    ensures
        (match r {
            Ok(v) => standard_no_pad_decode(s@) == Some(v@),
            Err(_) => standard_no_pad_decode(s@) is None,
        }),
{
    match ::base64::engine::general_purpose::STANDARD_NO_PAD.decode(s) {
        Ok(v) => Ok(v),
        Err(e) => Err(e.to_string()),
    }
}

/// Decodes standard, padded Base64; the error is the crate's message.
///
/// Trusted: calls `base64::engine::general_purpose::STANDARD.decode`, a
/// function of the input alone; its bytes are named `standard_decode`, and it
/// fails exactly where that is `None`. The error's text is not described.
#[verifier::external_body]
pub(crate) fn standard_decode_bytes(s: &str) -> (r: Result<Vec<u8>, String>)
    ensures
        (match r {
            Ok(v) => standard_decode(s@) == Some(v@),
            Err(_) => standard_decode(s@) is None,
        }),
{
    match ::base64::engine::general_purpose::STANDARD.decode(s) {
        Ok(v) => Ok(v),
        Err(e) => Err(e.to_string()),
    }
}

} // verus!
