//! Trusted boundary to the encoding crates the decoder leans on: standard
//! base64 decoding of event payloads, base58 rendering and validation of
//! 32-byte account keys, and UTF-8 string recovery. Each wrapper's contract
//! states exactly what its outside call computes, either through vstd's UTF-8
//! model or through a named, input-determined result.

use vstd::prelude::*;
use vstd::utf8::{decode_utf8, valid_utf8};

verus! {

/// What `base64::decode` yields on this input: `Some` exactly on well-formed
/// standard base64 (with padding), and a function of the input bytes alone.
pub uninterp spec fn b64_decode_of(s: Seq<u8>) -> Option<Seq<u8>>;

/// Relies on base64::decode (standard alphabet): the result is determined by
/// the input bytes, `Ok` exactly on well-formed base64.
#[verifier::external_body]
pub fn b64_decode(s: &[u8]) -> (r: Option<Vec<u8>>)
    ensures
        match r {
            Some(v) => b64_decode_of(s@) == Some(v@),
            None => b64_decode_of(s@) is None,
        },
{
    base64::decode(s).ok()
}

/// What `bs58::encode` yields: the base58 text (Bitcoin alphabet) of the
/// input bytes, a function of those bytes alone.
pub uninterp spec fn b58_of(b: Seq<u8>) -> Seq<char>;

/// Relies on bs58::encode with the default (Bitcoin) alphabet, the base58
/// form used for on-chain account keys.
#[verifier::external_body]
pub fn b58_encode(b: &[u8]) -> (r: String)
    ensures
        r@ == b58_of(b@),
{
    bs58::encode(b).into_string()
}

/// What `bs58::decode` yields: `Some` exactly on valid base58 text (Bitcoin
/// alphabet), and a function of the input bytes alone.
pub uninterp spec fn b58_decode_of(s: Seq<u8>) -> Option<Seq<u8>>;

/// Relies on bs58::decode with the default (Bitcoin) alphabet; used to
/// validate account-key text scraped from log lines.
#[verifier::external_body]
pub fn b58_decode(s: &[u8]) -> (r: Option<Vec<u8>>)
    ensures
        match r {
            Some(v) => b58_decode_of(s@) == Some(v@),
            None => b58_decode_of(s@) is None,
        },
{
    bs58::decode(s).into_vec().ok()
}

/// The characters the bytes encode in UTF-8, or the empty string on invalid
/// input: how the decoder defaults a malformed text field.
pub open spec fn utf8_or_empty_spec(b: Seq<u8>) -> Seq<char> {
    if valid_utf8(b) {
        decode_utf8(b)
    } else {
        Seq::empty()
    }
}

/// Relies on String::from_utf8: `Ok` exactly on valid UTF-8, returning the
/// string those bytes encode.
#[verifier::external_body]
pub fn utf8_or_empty(b: Vec<u8>) -> (r: String)
    ensures
        r@ == utf8_or_empty_spec(b@),
{
    match String::from_utf8(b) {
        Ok(s) => s,
        Err(_) => String::new(),
    }
}

} // verus!
