//! Failure kinds of every operation, with the request field each one names.

use vstd::prelude::*;

verus! {

/// A named field of an operation's request.
#[derive(Clone, Copy, Debug, PartialEq, Eq, Structural)]
pub enum Field {
    Mint,
    MintAuthority,
    Destination,
    Authority,
    From,
    To,
    Owner,
    Pubkey,
    Secret,
    Signature,
    Decimals,
    Lamports,
}

/// Why an operation did not produce a result.
#[derive(Clone, Debug, PartialEq, Eq)]
pub enum ServiceError {
    /// One or more required fields are absent.
    MissingField,
    /// A base58 or base64 field does not decode.
    InvalidEncoding(Field),
    /// A textual address does not decode to a 32-byte identifier.
    InvalidAddress(Field),
    /// Secret bytes are not a consistent 64-byte ed25519 key pair.
    InvalidKeyMaterial,
    /// A signature does not decode to exactly 64 bytes.
    InvalidSignatureEncoding,
    /// Address bytes that are not an ed25519 curve point.
    InvalidPublicKey,
    /// A business rule on an amount or a range.
    DomainRuleViolation(Field),
    /// The instruction encoder refused arguments that had passed validation;
    /// holds the encoder's own description.
    ConstructionFailure(String),
}

/// The name of a request field as callers write it.
pub open spec fn field_name(f: Field) -> Seq<char> {
    match f {
        Field::Mint => "mint"@,
        Field::MintAuthority => "mintAuthority"@,
        Field::Destination => "destination"@,
        Field::Authority => "authority"@,
        Field::From => "from"@,
        Field::To => "to"@,
        Field::Owner => "owner"@,
        Field::Pubkey => "pubkey"@,
        Field::Secret => "secret"@,
        Field::Signature => "signature"@,
        Field::Decimals => "decimals"@,
        Field::Lamports => "lamports"@,
    }
}

impl Field {
    /// The field's name as callers write it.
    pub fn name(&self) -> (r: &'static str)
        ensures
            r@ == field_name(*self),
    {
        match self {
            Field::Mint => "mint",
            Field::MintAuthority => "mintAuthority",
            Field::Destination => "destination",
            Field::Authority => "authority",
            Field::From => "from",
            Field::To => "to",
            Field::Owner => "owner",
            Field::Pubkey => "pubkey",
            Field::Secret => "secret",
            Field::Signature => "signature",
            Field::Decimals => "decimals",
            Field::Lamports => "lamports",
        }
    }
}

/// The message that reports `e` to the caller.
pub open spec fn message_text(e: ServiceError) -> Seq<char> {
    match e {
        ServiceError::MissingField => "Missing required fields"@,
        ServiceError::InvalidEncoding(Field::Secret) => "Invalid base58 secret key"@,
        ServiceError::InvalidEncoding(Field::Signature) => "Invalid base64 signature"@,
        ServiceError::InvalidEncoding(_) => "Invalid encoding"@,
        ServiceError::InvalidAddress(Field::Mint) => "Invalid mint pubkey"@,
        ServiceError::InvalidAddress(Field::MintAuthority) => "Invalid mintAuthority pubkey"@,
        ServiceError::InvalidAddress(Field::Destination) => "Invalid destination pubkey"@,
        ServiceError::InvalidAddress(Field::Authority) => "Invalid authority pubkey"@,
        ServiceError::InvalidAddress(Field::From) => "Invalid from pubkey"@,
        ServiceError::InvalidAddress(Field::To) => "Invalid to pubkey"@,
        ServiceError::InvalidAddress(Field::Owner) => "Invalid owner pubkey"@,
        ServiceError::InvalidAddress(_) => "Invalid pubkey"@,
        ServiceError::InvalidKeyMaterial => "Invalid secret key bytes"@,
        ServiceError::InvalidSignatureEncoding => "Signature must be 64 bytes"@,
        ServiceError::InvalidPublicKey => "Invalid public key bytes for ed25519"@,
        ServiceError::DomainRuleViolation(Field::Lamports) => "Lamports must be greater than zero"@,
        ServiceError::DomainRuleViolation(Field::Decimals) => "Decimals must be between 0 and 255"@,
        ServiceError::DomainRuleViolation(_) => "Value out of range"@,
        ServiceError::ConstructionFailure(text) => text@,
    }
}

impl ServiceError {
    /// The message that reports this failure to the caller.
    pub fn message(&self) -> (r: String)
        ensures
            r@ == message_text(*self),
    {
        match self {
            ServiceError::MissingField => "Missing required fields".to_owned(),
            ServiceError::InvalidEncoding(Field::Secret) => "Invalid base58 secret key".to_owned(),
            ServiceError::InvalidEncoding(Field::Signature) => "Invalid base64 signature".to_owned(),
            ServiceError::InvalidEncoding(_) => "Invalid encoding".to_owned(),
            ServiceError::InvalidAddress(Field::Mint) => "Invalid mint pubkey".to_owned(),
            ServiceError::InvalidAddress(Field::MintAuthority) => "Invalid mintAuthority pubkey".to_owned(),
            ServiceError::InvalidAddress(Field::Destination) => "Invalid destination pubkey".to_owned(),
            ServiceError::InvalidAddress(Field::Authority) => "Invalid authority pubkey".to_owned(),
            ServiceError::InvalidAddress(Field::From) => "Invalid from pubkey".to_owned(),
            ServiceError::InvalidAddress(Field::To) => "Invalid to pubkey".to_owned(),
            ServiceError::InvalidAddress(Field::Owner) => "Invalid owner pubkey".to_owned(),
            ServiceError::InvalidAddress(_) => "Invalid pubkey".to_owned(),
            ServiceError::InvalidKeyMaterial => "Invalid secret key bytes".to_owned(),
            ServiceError::InvalidSignatureEncoding => "Signature must be 64 bytes".to_owned(),
            ServiceError::InvalidPublicKey => "Invalid public key bytes for ed25519".to_owned(),
            ServiceError::DomainRuleViolation(Field::Lamports) => "Lamports must be greater than zero".to_owned(),
            ServiceError::DomainRuleViolation(Field::Decimals) => "Decimals must be between 0 and 255".to_owned(),
            ServiceError::DomainRuleViolation(_) => "Value out of range".to_owned(),
            ServiceError::ConstructionFailure(text) => text.clone(),
        }
    }

    /// Whether the failure lies in the caller's input, as opposed to the
    /// construction step.
    pub fn is_input_error(&self) -> (r: bool)
        ensures
            r == !(self is ConstructionFailure),
    {
        match self {
            ServiceError::ConstructionFailure(_) => false,
            _ => true,
        }
    }
}

} // verus!
