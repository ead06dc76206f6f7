//! Text encodings of binary data: base58 for key material and addresses,
//! base64 (standard alphabet, padded) for signatures and instruction data.

use vstd::prelude::*;
use base64::Engine;

verus! {

/// The base58 text of a byte string (Bitcoin alphabet).
pub uninterp spec fn base58_of(b: Seq<u8>) -> Seq<char>;

/// The bytes that a base58 text decodes to, or `None` where it is not base58.
pub uninterp spec fn base58_decoded(s: Seq<char>) -> Option<Seq<u8>>;

/// The padded base64 text of a byte string (standard alphabet).
pub uninterp spec fn base64_of(b: Seq<u8>) -> Seq<char>;

/// The bytes that a padded base64 text decodes to, or `None` where it is not
/// canonical base64.
pub uninterp spec fn base64_decoded(s: Seq<char>) -> Option<Seq<u8>>;

#[verifier::external_type_specification]
#[verifier::external_body]
pub struct ExBase58Error(bs58::decode::Error);

#[verifier::external_type_specification]
#[verifier::external_body]
pub struct ExBase64Error(base64::DecodeError);

/// Relies on bs58::encode(..).into_string: the text depends on the bytes alone
/// and decodes back to them.
#[verifier::external_body]
fn bs58_encode(b: &[u8]) -> (r: String)
    ensures
        r@ == base58_of(b@),
        base58_decoded(r@) == Some(b@),
{
    bs58::encode(b).into_string()
}

/// Relies on bs58::decode(..).into_vec: strict decoding, which fails on any
/// character outside the alphabet.
#[verifier::external_body]
fn bs58_decode(s: &str) -> (r: Result<Vec<u8>, bs58::decode::Error>)
    ensures
        match r {
            Ok(v) => base58_decoded(s@) == Some(v@),
            Err(_) => base58_decoded(s@) is None,
        },
{
    bs58::decode(s).into_vec()
}

/// Relies on base64's STANDARD engine `encode`: padded text that the same
/// engine decodes back to the bytes.
#[verifier::external_body]
fn b64_encode(b: &[u8]) -> (r: String)
    ensures
        r@ == base64_of(b@),
        base64_decoded(r@) == Some(b@),
{
    base64::engine::general_purpose::STANDARD.encode(b)
}

/// Relies on base64's STANDARD engine `decode`: canonical padding required,
/// no trailing bits allowed.
#[verifier::external_body]
fn b64_decode(s: &str) -> (r: Result<Vec<u8>, base64::DecodeError>)
    ensures
        match r {
            Ok(v) => base64_decoded(s@) == Some(v@),
            Err(_) => base64_decoded(s@) is None,
        },
{
    base64::engine::general_purpose::STANDARD.decode(s)
}

/// Base58 text of `bytes`; decoding it gives `bytes` back.
pub fn encode_base58(bytes: &[u8]) -> (r: String)
    ensures
        r@ == base58_of(bytes@),
        base58_decoded(r@) == Some(bytes@),
{
    bs58_encode(bytes)
}

/// The bytes of a base58 text; `None` exactly where the text is not base58.
pub fn decode_base58(text: &str) -> (r: Option<Vec<u8>>)
    ensures
        match r {
            Some(v) => base58_decoded(text@) == Some(v@),
            None => base58_decoded(text@) is None,
        },
{
    match bs58_decode(text) {
        Ok(v) => Some(v),
        Err(_) => None,
    }
}

/// Base64 text of `bytes`; decoding it gives `bytes` back.
pub fn encode_base64(bytes: &[u8]) -> (r: String)
    ensures
        r@ == base64_of(bytes@),
        base64_decoded(r@) == Some(bytes@),
{
    b64_encode(bytes)
}

/// The bytes of a base64 text; `None` exactly where the text is not
/// canonical padded base64.
pub fn decode_base64(text: &str) -> (r: Option<Vec<u8>>)
    ensures
        match r {
            Some(v) => base64_decoded(text@) == Some(v@),
            None => base64_decoded(text@) is None,
        },
{
    match b64_decode(text) {
        Ok(v) => Some(v),
        Err(_) => None,
    }
}

} // verus!
