//! Requests and results of the service's operations. Every result has the
//! same shape: `success`, and exactly one of `data` and `error`.

#![allow(non_snake_case)]

use vstd::prelude::*;

verus! {

#[derive(Clone, Debug)]
pub struct KeypairResponseData {
    pub pubkey: String,
    pub secret: String,
}

#[derive(Clone, Debug)]
pub struct KeypairResponse {
    pub success: bool,
    pub data: Option<KeypairResponseData>,
    pub error: Option<String>,
}

/// A mint-initialisation request whose fields are all present; the decimals
/// are still unchecked against their 8-bit range.
#[derive(Clone, Debug)]
pub struct TokenCreateRequest {
    pub mintAuthority: String,
    pub mint: String,
    pub decimals: u64,
}

#[derive(Clone, Debug)]
pub struct AccountMetaModel {
    pub pubkey: String,
    pub is_signer: bool,
    pub is_writable: bool,
}

#[derive(Clone, Debug)]
pub struct TokenInstructionResponseData {
    pub program_id: String,
    pub accounts: Vec<AccountMetaModel>,
    pub instruction_data: String,
}

#[derive(Clone, Debug)]
pub struct TokenInstructionResponse {
    pub success: bool,
    pub data: Option<TokenInstructionResponseData>,
    pub error: Option<String>,
}

#[derive(Clone, Debug)]
pub struct TokenMintRequest {
    pub mint: String,
    pub destination: String,
    pub authority: String,
    pub amount: u64,
}

#[derive(Clone, Debug)]
pub struct MessageSignRequest {
    pub message: String,
    pub secret: String,
}

#[derive(Clone, Debug)]
pub struct MessageSignResponseData {
    pub signature: String,
    pub pubkey: String,
    pub message: String,
}

#[derive(Clone, Debug)]
pub struct MessageSignResponse {
    pub success: bool,
    pub data: Option<MessageSignResponseData>,
    pub error: Option<String>,
}

#[derive(Clone, Debug)]
pub struct MessageVerifyRequest {
    pub message: String,
    pub signature: String,
    pub pubkey: String,
}

#[derive(Clone, Debug)]
pub struct MessageVerifyResponseData {
    pub valid: bool,
    pub message: String,
    pub pubkey: String,
}

#[derive(Clone, Debug)]
pub struct MessageVerifyResponse {
    pub success: bool,
    pub data: Option<MessageVerifyResponseData>,
    pub error: Option<String>,
}

#[derive(Clone, Debug)]
pub struct SendSolRequest {
    pub from: String,
    pub to: String,
    pub lamports: u64,
}

#[derive(Clone, Debug)]
pub struct SendSolResponseData {
    pub program_id: String,
    pub accounts: Vec<String>,
    pub instruction_data: String,
}

#[derive(Clone, Debug)]
pub struct SendSolResponse {
    pub success: bool,
    pub data: Option<SendSolResponseData>,
    pub error: Option<String>,
}

/// A token-transfer request. It names no source token account: the owner's
/// address stands for it.
#[derive(Clone, Debug)]
pub struct SendTokenRequest {
    pub destination: String,
    pub mint: String,
    pub owner: String,
    pub amount: u64,
}

#[derive(Clone, Debug)]
pub struct SendTokenAccountMeta {
    pub pubkey: String,
    pub isSigner: bool,
}

#[derive(Clone, Debug)]
pub struct SendTokenResponseData {
    pub program_id: String,
    pub accounts: Vec<SendTokenAccountMeta>,
    pub instruction_data: String,
}

#[derive(Clone, Debug)]
pub struct SendTokenResponse {
    pub success: bool,
    pub data: Option<SendTokenResponseData>,
    pub error: Option<String>,
}

} // verus!
