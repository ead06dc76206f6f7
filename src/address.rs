//! Public addresses: 32-byte identifiers written as base58 text.

use vstd::prelude::*;
use crate::encoding::{base58_decoded, base58_of, encode_base58};
use crate::error::{Field, ServiceError};
use std::str::FromStr;

verus! {

/// A 32-byte account or authority identifier.
#[derive(Clone, Copy, Debug, PartialEq, Eq)]
pub struct Address {
    pub bytes: [u8; 32],
}

/// The address bytes that `text` stands for: its base58 decoding, where that
/// is exactly 32 bytes.
pub open spec fn address_of_text(text: Seq<char>) -> Option<Seq<u8>> {
    match base58_decoded(text) {
        Some(b) => if b.len() == 32 { Some(b) } else { None },
        None => None,
    }
}

#[verifier::external_type_specification]
#[verifier::external_body]
pub struct ExParsePubkeyError(solana_program::pubkey::ParsePubkeyError);

/// Relies on solana_program's `Pubkey::from_str`: it decodes with bs58 and
/// accepts exactly 32 bytes. Its early refusal of text over 44 bytes refuses
/// no address: base58 text of 32 bytes is at most 44 ASCII characters (each
/// leading `1` is one zero byte, and 58^44 exceeds 256^32).
#[verifier::external_body]
fn pubkey_from_str(text: &str) -> (r: Result<[u8; 32], solana_program::pubkey::ParsePubkeyError>)
    ensures
        match r {
            Ok(b) => address_of_text(text@) == Some(b@),
            Err(_) => address_of_text(text@) is None,
        },
{
    solana_program::pubkey::Pubkey::from_str(text).map(|p| p.to_bytes())
}

/// Parses the address held in request field `field`; the error names that
/// field.
pub fn parse_address(text: &str, field: Field) -> (r: Result<Address, ServiceError>)
    ensures
        match address_of_text(text@) {
            Some(b) => r matches Ok(a) && a.bytes@ == b,
            None => r == Err::<Address, ServiceError>(ServiceError::InvalidAddress(field)),
        },
{
    match pubkey_from_str(text) {
        Ok(bytes) => Ok(Address { bytes }),
        Err(_) => Err(ServiceError::InvalidAddress(field)),
    }
}

impl Address {
    /// The address's base58 text, which parses back to the same address.
    pub fn to_text(&self) -> (r: String)
        ensures
            r@ == base58_of(self.bytes@),
            address_of_text(r@) == Some(self.bytes@),
    {
        encode_base58(&self.bytes)
    }
}

} // verus!
