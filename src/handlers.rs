//! The operations of the service: field presence, then address checks in
//! field order, then domain rules, then construction, each failure reported
//! with its own message.

use vstd::prelude::*;
use crate::address::{address_of_text, parse_address};
use crate::encoding::{base58_decoded, base58_of, base64_decoded, base64_of, decode_base58, decode_base64, encode_base58, encode_base64};
use crate::error::{message_text, Field, ServiceError};
use crate::instructions::{account_view, build_mint_init, build_mint_to, build_native_transfer, build_token_transfer, mint_init_data, mint_to_data, system_transfer_data, token_transfer_data, AccountRef, InstructionPayload, RENT_SYSVAR_ID, SYSTEM_PROGRAM_ID, TOKEN_PROGRAM_ID};
use crate::keys::{consistent_keypair, ed25519_accepts, from_secret_bytes, generate, is_valid_public_key, point_decodes, sign, signature_of, signature_well_formed, verify_signature};
use crate::models::{AccountMetaModel, KeypairResponse, KeypairResponseData, MessageSignRequest, MessageSignResponse, MessageSignResponseData, MessageVerifyRequest, MessageVerifyResponse, MessageVerifyResponseData, SendSolRequest, SendSolResponse, SendSolResponseData, SendTokenAccountMeta, SendTokenRequest, SendTokenResponse, SendTokenResponseData, TokenCreateRequest, TokenInstructionResponse, TokenInstructionResponseData, TokenMintRequest};

verus! {

/// An instruction as plain values: program id, accounts with their signer
/// and writable flags, data.
pub type PayloadSpec = (Seq<u8>, Seq<(Seq<u8>, bool, bool)>, Seq<u8>);

/// `d` renders the instruction `x`: addresses in base58, data in base64.
pub open spec fn token_data_is(d: TokenInstructionResponseData, x: PayloadSpec) -> bool {
    &&& d.program_id@ == base58_of(x.0)
    &&& d.accounts@.len() == x.1.len()
    &&& forall|i: int| 0 <= i < x.1.len() ==> {
        &&& (#[trigger] d.accounts@[i]).pubkey@ == base58_of(x.1[i].0)
        &&& address_of_text(d.accounts@[i].pubkey@) == Some(x.1[i].0)
        &&& d.accounts@[i].is_signer == x.1[i].1
        &&& d.accounts@[i].is_writable == x.1[i].2
    }
    &&& d.instruction_data@ == base64_of(x.2)
    &&& base64_decoded(d.instruction_data@) == Some(x.2)
}

/// Mint initialisation for the given texts and decimals.
pub open spec fn token_create_outcome(mint: Seq<char>, authority: Seq<char>, decimals: u64) -> Result<PayloadSpec, ServiceError> {
    match (address_of_text(mint), address_of_text(authority)) {
        (None, _) => Err(ServiceError::InvalidAddress(Field::Mint)),
        (Some(_), None) => Err(ServiceError::InvalidAddress(Field::MintAuthority)),
        (Some(m), Some(a)) => if decimals > 255 {
            Err(ServiceError::DomainRuleViolation(Field::Decimals))
        } else {
            Ok((TOKEN_PROGRAM_ID@, seq![(m, false, true), (RENT_SYSVAR_ID@, false, false)], mint_init_data(a, decimals as u8)))
        },
    }
}

/// Minting for the given texts and amount.
pub open spec fn token_mint_outcome(mint: Seq<char>, destination: Seq<char>, authority: Seq<char>, amount: u64) -> Result<PayloadSpec, ServiceError> {
    match (address_of_text(mint), address_of_text(destination), address_of_text(authority)) {
        (None, _, _) => Err(ServiceError::InvalidAddress(Field::Mint)),
        (Some(_), None, _) => Err(ServiceError::InvalidAddress(Field::Destination)),
        (Some(_), Some(_), None) => Err(ServiceError::InvalidAddress(Field::Authority)),
        (Some(m), Some(d), Some(a)) =>
            Ok((TOKEN_PROGRAM_ID@, seq![(m, false, true), (d, false, true), (a, true, false)], mint_to_data(amount))),
    }
}

/// A token transfer for the given texts and amount; the owner's address is
/// also the source account.
pub open spec fn send_token_outcome(destination: Seq<char>, mint: Seq<char>, owner: Seq<char>, amount: u64) -> Result<PayloadSpec, ServiceError> {
    match (address_of_text(destination), address_of_text(mint), address_of_text(owner)) {
        (None, _, _) => Err(ServiceError::InvalidAddress(Field::Destination)),
        (Some(_), None, _) => Err(ServiceError::InvalidAddress(Field::Mint)),
        (Some(_), Some(_), None) => Err(ServiceError::InvalidAddress(Field::Owner)),
        (Some(d), Some(_), Some(o)) =>
            Ok((TOKEN_PROGRAM_ID@, seq![(o, false, true), (d, false, true), (o, true, false)], token_transfer_data(amount))),
    }
}

/// A native transfer for the given texts and amount.
pub open spec fn send_sol_outcome(from: Seq<char>, to: Seq<char>, lamports: u64) -> Result<PayloadSpec, ServiceError> {
    match (address_of_text(from), address_of_text(to)) {
        (None, _) => Err(ServiceError::InvalidAddress(Field::From)),
        (Some(_), None) => Err(ServiceError::InvalidAddress(Field::To)),
        (Some(f), Some(t)) => if lamports == 0 {
            Err(ServiceError::DomainRuleViolation(Field::Lamports))
        } else {
            Ok((SYSTEM_PROGRAM_ID@, seq![(f, true, true), (t, false, true)], system_transfer_data(lamports)))
        },
    }
}

/// The key pair that a base58 secret text stands for.
pub open spec fn keypair_of_text(secret: Seq<char>) -> Result<Seq<u8>, ServiceError> {
    match base58_decoded(secret) {
        None => Err(ServiceError::InvalidEncoding(Field::Secret)),
        Some(b) => if consistent_keypair(b) { Ok(b) } else { Err(ServiceError::InvalidKeyMaterial) },
    }
}

/// Verification of a base64 signature of `message` under a base58 address:
/// the address, then the signature's encoding and its length of 64 bytes,
/// then the key's validity as a curve point; only then the cryptographic
/// check, whose failure is a result and not an error. A signature whose
/// scalar has its top bits set is one that ed25519 rejects.
pub open spec fn verify_outcome(message: Seq<char>, signature: Seq<char>, pubkey: Seq<char>) -> Result<bool, ServiceError> {
    match address_of_text(pubkey) {
        None => Err(ServiceError::InvalidAddress(Field::Pubkey)),
        Some(pk) => match base64_decoded(signature) {
            None => Err(ServiceError::InvalidEncoding(Field::Signature)),
            Some(sig) => if sig.len() != 64 {
                Err(ServiceError::InvalidSignatureEncoding)
            } else if !point_decodes(pk) {
                Err(ServiceError::InvalidPublicKey)
            } else {
                Ok(signature_well_formed(sig) && ed25519_accepts(pk, message, sig))
            },
        },
    }
}

/// The accounts of a token-program payload, rendered.
fn render_accounts(p: &InstructionPayload) -> (r: Vec<AccountMetaModel>)
    ensures
        r@.len() == p.accounts@.len(),
        forall|i: int| 0 <= i < r@.len() ==> {
            &&& (#[trigger] r@[i]).pubkey@ == base58_of(p.accounts@[i].address.bytes@)
            &&& address_of_text(r@[i].pubkey@) == Some(p.accounts@[i].address.bytes@)
            &&& r@[i].is_signer == p.accounts@[i].is_signer
            &&& r@[i].is_writable == p.accounts@[i].is_writable
        },
{
    let mut r: Vec<AccountMetaModel> = Vec::new();
    let mut i: usize = 0;
    while i < p.accounts.len()
        invariant
            i <= p.accounts@.len(),
            r@.len() == i,
            forall|j: int| 0 <= j < i ==> {
                &&& (#[trigger] r@[j]).pubkey@ == base58_of(p.accounts@[j].address.bytes@)
                &&& address_of_text(r@[j].pubkey@) == Some(p.accounts@[j].address.bytes@)
                &&& r@[j].is_signer == p.accounts@[j].is_signer
                &&& r@[j].is_writable == p.accounts@[j].is_writable
            },
        decreases p.accounts@.len() - i,
    {
        let a = &p.accounts[i];
        r.push(AccountMetaModel { pubkey: a.address.to_text(), is_signer: a.is_signer, is_writable: a.is_writable });
        i = i + 1;
    }
    r
}

/// A token-program payload rendered as response data.
fn render_token_instruction(p: &InstructionPayload) -> (r: TokenInstructionResponseData)
    ensures
        token_data_is(r, (p.program_id.bytes@, p.accounts@.map_values(|a: AccountRef| account_view(a)), p.data@)),
{
    let accounts = render_accounts(p);
    TokenInstructionResponseData {
        program_id: p.program_id.to_text(),
        accounts,
        instruction_data: encode_base64(p.data.as_slice()),
    }
}

/// A signature that decodes to other than 64 bytes is reported as a
/// signature-encoding error whatever the message, once the address is valid.
pub proof fn lemma_signature_length_checked(message: Seq<char>, signature: Seq<char>, pubkey: Seq<char>)
    requires
        address_of_text(pubkey) is Some,
        base64_decoded(signature) matches Some(b) && b.len() != 64,
    ensures
        verify_outcome(message, signature, pubkey) == Err::<bool, ServiceError>(ServiceError::InvalidSignatureEncoding),
{
}

/// Once a signature and a key have been checked against one message, checking
/// them against any other message gives a verdict, never an error.
pub proof fn lemma_verdict_not_error(message: Seq<char>, other: Seq<char>, signature: Seq<char>, pubkey: Seq<char>)
    requires
        verify_outcome(message, signature, pubkey) is Ok,
    ensures
        verify_outcome(other, signature, pubkey) is Ok,
{
}

/// Whether an outcome is an invalid-address error.
pub open spec fn is_address_error<T>(r: Result<T, ServiceError>) -> bool {
    r matches Err(ServiceError::InvalidAddress(_))
}

/// A text that is not a valid address is refused as an address, in whichever
/// address field of whichever operation it stands and whatever the other
/// fields hold.
pub proof fn lemma_bad_address_rejected(bad: Seq<char>, x: Seq<char>, y: Seq<char>, amount: u64, message: Seq<char>, signature: Seq<char>)
    requires
        address_of_text(bad) is None,
    ensures
        is_address_error(token_create_outcome(bad, x, amount)),
        is_address_error(token_create_outcome(x, bad, amount)),
        is_address_error(token_mint_outcome(bad, x, y, amount)),
        is_address_error(token_mint_outcome(x, bad, y, amount)),
        is_address_error(token_mint_outcome(x, y, bad, amount)),
        is_address_error(send_token_outcome(bad, x, y, amount)),
        is_address_error(send_token_outcome(x, bad, y, amount)),
        is_address_error(send_token_outcome(x, y, bad, amount)),
        is_address_error(send_sol_outcome(bad, x, amount)),
        is_address_error(send_sol_outcome(x, bad, amount)),
        is_address_error(verify_outcome(message, signature, bad)),
{
}

/// Decimals outside the 8-bit range are refused as a domain rule, before any
/// instruction is built, once both addresses are valid.
pub proof fn lemma_decimals_range_checked(mint: Seq<char>, authority: Seq<char>, decimals: u64)
    requires
        address_of_text(mint) is Some,
        address_of_text(authority) is Some,
        decimals > 255,
    ensures
        token_create_outcome(mint, authority, decimals)
            == Err::<PayloadSpec, ServiceError>(ServiceError::DomainRuleViolation(Field::Decimals)),
{
}

/// A native transfer of zero is refused as a domain rule; any positive amount
/// gives exactly the sender as writable signer and the recipient as writable.
pub proof fn lemma_native_amount_rule(from: Seq<char>, to: Seq<char>, lamports: u64)
    requires
        address_of_text(from) is Some,
        address_of_text(to) is Some,
    ensures
        lamports == 0 ==> send_sol_outcome(from, to, lamports)
            == Err::<PayloadSpec, ServiceError>(ServiceError::DomainRuleViolation(Field::Lamports)),
        lamports > 0 ==> (send_sol_outcome(from, to, lamports) matches Ok(x)
            && x.1 == seq![(address_of_text(from)->Some_0, true, true), (address_of_text(to)->Some_0, false, true)]),
{
}

/// Mint initialisation from a request whose fields are present.
pub fn token_create(req: &TokenCreateRequest) -> (r: Result<TokenInstructionResponseData, ServiceError>)
    ensures
        match token_create_outcome(req.mint@, req.mintAuthority@, req.decimals) {
            Ok(x) => r matches Ok(d) && token_data_is(d, x),
            Err(e) => r == Err::<TokenInstructionResponseData, ServiceError>(e),
        },
{
    let mint = parse_address(req.mint.as_str(), Field::Mint)?;
    let authority = parse_address(req.mintAuthority.as_str(), Field::MintAuthority)?;
    if req.decimals > 255 {
        return Err(ServiceError::DomainRuleViolation(Field::Decimals));
    }
    let p = build_mint_init(&mint, &authority, req.decimals as u8)?;
    Ok(render_token_instruction(&p))
}

/// `d` renders the native-transfer instruction `x`: only the account
/// addresses are listed.
pub open spec fn sol_data_is(d: SendSolResponseData, x: PayloadSpec) -> bool {
    &&& d.program_id@ == base58_of(x.0)
    &&& d.accounts@.len() == x.1.len()
    &&& forall|i: int| 0 <= i < x.1.len() ==> {
        &&& (#[trigger] d.accounts@[i])@ == base58_of(x.1[i].0)
        &&& address_of_text(d.accounts@[i]@) == Some(x.1[i].0)
    }
    &&& d.instruction_data@ == base64_of(x.2)
    &&& base64_decoded(d.instruction_data@) == Some(x.2)
}

/// `d` renders the token-transfer instruction `x`: addresses with their
/// signer flags.
pub open spec fn send_token_data_is(d: SendTokenResponseData, x: PayloadSpec) -> bool {
    &&& d.program_id@ == base58_of(x.0)
    &&& d.accounts@.len() == x.1.len()
    &&& forall|i: int| 0 <= i < x.1.len() ==> {
        &&& (#[trigger] d.accounts@[i]).pubkey@ == base58_of(x.1[i].0)
        &&& address_of_text(d.accounts@[i].pubkey@) == Some(x.1[i].0)
        &&& d.accounts@[i].isSigner == x.1[i].1
    }
    &&& d.instruction_data@ == base64_of(x.2)
    &&& base64_decoded(d.instruction_data@) == Some(x.2)
}

/// Minting from a request whose fields are present.
pub fn token_mint(req: &TokenMintRequest) -> (r: Result<TokenInstructionResponseData, ServiceError>)
    ensures
        match token_mint_outcome(req.mint@, req.destination@, req.authority@, req.amount) {
            Ok(x) => r matches Ok(d) && token_data_is(d, x),
            Err(e) => r == Err::<TokenInstructionResponseData, ServiceError>(e),
        },
{
    let mint = parse_address(req.mint.as_str(), Field::Mint)?;
    let destination = parse_address(req.destination.as_str(), Field::Destination)?;
    let authority = parse_address(req.authority.as_str(), Field::Authority)?;
    let p = build_mint_to(&mint, &destination, &authority, req.amount)?;
    Ok(render_token_instruction(&p))
}

/// A token transfer from a request whose fields are present. The request
/// names no source token account, so the owner's address is passed as the
/// source as well as the signing authority; the mint is only validated.
pub fn send_token(req: &SendTokenRequest) -> (r: Result<SendTokenResponseData, ServiceError>)
    ensures
        match send_token_outcome(req.destination@, req.mint@, req.owner@, req.amount) {
            Ok(x) => r matches Ok(d) && send_token_data_is(d, x),
            Err(e) => r == Err::<SendTokenResponseData, ServiceError>(e),
        },
{
    let destination = parse_address(req.destination.as_str(), Field::Destination)?;
    let _mint = parse_address(req.mint.as_str(), Field::Mint)?;
    let owner = parse_address(req.owner.as_str(), Field::Owner)?;
    let p = build_token_transfer(&owner, &destination, &owner, req.amount)?;
    let mut accounts: Vec<SendTokenAccountMeta> = Vec::new();
    let mut i: usize = 0;
    while i < p.accounts.len()
        invariant
            i <= p.accounts@.len(),
            accounts@.len() == i,
            forall|j: int| 0 <= j < i ==> {
                &&& (#[trigger] accounts@[j]).pubkey@ == base58_of(p.accounts@[j].address.bytes@)
                &&& address_of_text(accounts@[j].pubkey@) == Some(p.accounts@[j].address.bytes@)
                &&& accounts@[j].isSigner == p.accounts@[j].is_signer
            },
        decreases p.accounts@.len() - i,
    {
        let a = &p.accounts[i];
        accounts.push(SendTokenAccountMeta { pubkey: a.address.to_text(), isSigner: a.is_signer });
        i = i + 1;
    }
    let d = SendTokenResponseData {
        program_id: p.program_id.to_text(),
        accounts,
        instruction_data: encode_base64(p.data.as_slice()),
    };
    proof {
        let x = send_token_outcome(req.destination@, req.mint@, req.owner@, req.amount)->Ok_0;
        assert forall|i: int| 0 <= i < x.1.len() implies
            (#[trigger] d.accounts@[i]).pubkey@ == base58_of(x.1[i].0)
            && address_of_text(d.accounts@[i].pubkey@) == Some(x.1[i].0) && d.accounts@[i].isSigner == x.1[i].1 by {
            assert(account_view(p.accounts@[i]) == x.1[i]);
        }
    }
    Ok(d)
}

/// A native transfer from a request whose fields are present; a zero amount
/// is refused once both addresses are valid.
pub fn send_sol(req: &SendSolRequest) -> (r: Result<SendSolResponseData, ServiceError>)
    ensures
        match send_sol_outcome(req.from@, req.to@, req.lamports) {
            Ok(x) => r matches Ok(d) && sol_data_is(d, x),
            Err(e) => r == Err::<SendSolResponseData, ServiceError>(e),
        },
{
    let from = parse_address(req.from.as_str(), Field::From)?;
    let to = parse_address(req.to.as_str(), Field::To)?;
    let p = build_native_transfer(&from, &to, req.lamports)?;
    let mut accounts: Vec<String> = Vec::new();
    let mut i: usize = 0;
    while i < p.accounts.len()
        invariant
            i <= p.accounts@.len(),
            accounts@.len() == i,
            forall|j: int| 0 <= j < i ==> (#[trigger] accounts@[j])@ == base58_of(p.accounts@[j].address.bytes@)
                && address_of_text(accounts@[j]@) == Some(p.accounts@[j].address.bytes@),
        decreases p.accounts@.len() - i,
    {
        accounts.push(p.accounts[i].address.to_text());
        i = i + 1;
    }
    let d = SendSolResponseData {
        program_id: p.program_id.to_text(),
        accounts,
        instruction_data: encode_base64(p.data.as_slice()),
    };
    proof {
        let x = send_sol_outcome(req.from@, req.to@, req.lamports)->Ok_0;
        assert forall|i: int| 0 <= i < x.1.len() implies
            (#[trigger] d.accounts@[i])@ == base58_of(x.1[i].0) && address_of_text(d.accounts@[i]@) == Some(x.1[i].0) by {
            assert(account_view(p.accounts@[i]) == x.1[i]);
        }
    }
    Ok(d)
}

/// Signs a message with a base58 secret. The signature that comes back,
/// with the public key that comes back, passes verification of the same
/// message.
pub fn message_sign(req: &MessageSignRequest) -> (r: Result<MessageSignResponseData, ServiceError>)
    ensures
        match keypair_of_text(req.secret@) {
            Ok(kp) => r matches Ok(d) && {
                &&& d.signature@ == base64_of(signature_of(kp, req.message@))
                &&& base64_decoded(d.signature@) == Some(signature_of(kp, req.message@))
                &&& d.pubkey@ == base58_of(kp.subrange(32, 64))
                &&& d.message@ == req.message@
                &&& verify_outcome(req.message@, d.signature@, d.pubkey@) == Ok::<bool, ServiceError>(true)
            },
            Err(e) => r == Err::<MessageSignResponseData, ServiceError>(e),
        },
{
    let bytes = match decode_base58(req.secret.as_str()) {
        Some(b) => b,
        None => return Err(ServiceError::InvalidEncoding(Field::Secret)),
    };
    let kp = match from_secret_bytes(bytes.as_slice()) {
        Some(kp) => kp,
        None => return Err(ServiceError::InvalidKeyMaterial),
    };
    let sig = sign(&kp, req.message.as_str());
    let public = kp.public();
    let d = MessageSignResponseData {
        signature: encode_base64(&sig),
        pubkey: public.to_text(),
        message: req.message.clone(),
    };
    Ok(d)
}

/// Verifies a base64 signature of a message under a base58 address. A
/// signature that does not match is a successful `false`; only malformed
/// input is an error.
pub fn message_verify(req: &MessageVerifyRequest) -> (r: Result<MessageVerifyResponseData, ServiceError>)
    ensures
        match verify_outcome(req.message@, req.signature@, req.pubkey@) {
            Ok(v) => r matches Ok(d) && d.valid == v && d.message@ == req.message@ && d.pubkey@ == req.pubkey@,
            Err(e) => r == Err::<MessageVerifyResponseData, ServiceError>(e),
        },
{
    let public = parse_address(req.pubkey.as_str(), Field::Pubkey)?;
    let bytes = match decode_base64(req.signature.as_str()) {
        Some(b) => b,
        None => return Err(ServiceError::InvalidEncoding(Field::Signature)),
    };
    if bytes.len() != 64 {
        return Err(ServiceError::InvalidSignatureEncoding);
    }
    if !is_valid_public_key(&public) {
        return Err(ServiceError::InvalidPublicKey);
    }
    if bytes[63] >= 32 {
        return Ok(MessageVerifyResponseData { valid: false, message: req.message.clone(), pubkey: req.pubkey.clone() });
    }
    let mut sig: [u8; 64] = [0u8; 64];
    let mut i: usize = 0;
    while i < 64
        invariant
            0 <= i <= 64,
            bytes@.len() == 64,
            forall|j: int| 0 <= j < i ==> sig@[j] == bytes@[j],
        decreases 64 - i,
    {
        sig.set(i, bytes[i]);
        i = i + 1;
    }
    proof {
        assert(sig@ =~= bytes@);
    }
    let valid = verify_signature(&public, req.message.as_str(), &sig);
    Ok(MessageVerifyResponseData { valid, message: req.message.clone(), pubkey: req.pubkey.clone() })
}

/// A fresh key pair: its base58 secret is accepted by signing, and its
/// base58 public key is a valid address.
pub fn keypair_handler() -> (r: KeypairResponse)
    ensures
        r.success,
        r.error is None,
        r.data matches Some(d) && (keypair_of_text(d.secret@) matches Ok(kp)
            && d.pubkey@ == base58_of(kp.subrange(32, 64))
            && address_of_text(d.pubkey@) == Some(kp.subrange(32, 64))),
{
    let kp = generate();
    let public = kp.public();
    let data = KeypairResponseData { pubkey: public.to_text(), secret: encode_base58(&kp.bytes) };
    KeypairResponse { success: true, data: Some(data), error: None }
}

/// A failed result of any operation: no data, and the failure's message.
pub open spec fn reports(success: bool, has_data: bool, error: Option<String>, e: ServiceError) -> bool {
    !success && !has_data && (error matches Some(t) && t@ == message_text(e))
}

/// Builds a mint-initialisation instruction from request fields, which may
/// be absent.
pub fn token_create_handler(mint: Option<&str>, mint_authority: Option<&str>, decimals: Option<u64>)
    -> (r: TokenInstructionResponse)
    ensures
        match (mint, mint_authority, decimals) {
            (Some(m), Some(a), Some(n)) => match token_create_outcome(m@, a@, n) {
                Ok(x) => r.success && r.error is None && (r.data matches Some(d) && token_data_is(d, x)),
                Err(e) => reports(r.success, r.data is Some, r.error, e),
            },
            _ => reports(r.success, r.data is Some, r.error, ServiceError::MissingField),
        },
{
    let (mint, mint_authority, decimals) = match (mint, mint_authority, decimals) {
        (Some(m), Some(a), Some(n)) => (m, a, n),
        _ => return token_failure(ServiceError::MissingField),
    };
    let req = TokenCreateRequest { mintAuthority: mint_authority.to_owned(), mint: mint.to_owned(), decimals };
    match token_create(&req) {
        Ok(d) => TokenInstructionResponse { success: true, data: Some(d), error: None },
        Err(e) => token_failure(e),
    }
}

/// Builds a mint-to instruction from request fields, which may be absent.
pub fn token_mint_handler(mint: Option<&str>, destination: Option<&str>, authority: Option<&str>, amount: Option<u64>)
    -> (r: TokenInstructionResponse)
    ensures
        match (mint, destination, authority, amount) {
            (Some(m), Some(d), Some(a), Some(n)) => match token_mint_outcome(m@, d@, a@, n) {
                Ok(x) => r.success && r.error is None && (r.data matches Some(out) && token_data_is(out, x)),
                Err(e) => reports(r.success, r.data is Some, r.error, e),
            },
            _ => reports(r.success, r.data is Some, r.error, ServiceError::MissingField),
        },
{
    let req = match (mint, destination, authority, amount) {
        (Some(m), Some(d), Some(a), Some(n)) =>
            TokenMintRequest { mint: m.to_owned(), destination: d.to_owned(), authority: a.to_owned(), amount: n },
        _ => return token_failure(ServiceError::MissingField),
    };
    match token_mint(&req) {
        Ok(d) => TokenInstructionResponse { success: true, data: Some(d), error: None },
        Err(e) => token_failure(e),
    }
}

fn token_failure(e: ServiceError) -> (r: TokenInstructionResponse)
    ensures
        reports(r.success, r.data is Some, r.error, e),
{
    TokenInstructionResponse { success: false, data: None, error: Some(e.message()) }
}

/// Signs a message from request fields, which may be absent.
pub fn message_sign_handler(message: Option<&str>, secret: Option<&str>) -> (r: MessageSignResponse)
    ensures
        match (message, secret) {
            (Some(m), Some(s)) => match keypair_of_text(s@) {
                Ok(kp) => r.success && r.error is None && (r.data matches Some(d) && {
                &&& d.signature@ == base64_of(signature_of(kp, m@))
                &&& base64_decoded(d.signature@) == Some(signature_of(kp, m@))
                &&& d.pubkey@ == base58_of(kp.subrange(32, 64))
                &&& d.message@ == m@
                &&& verify_outcome(m@, d.signature@, d.pubkey@) == Ok::<bool, ServiceError>(true)
            }),
                Err(e) => reports(r.success, r.data is Some, r.error, e),
            },
            _ => reports(r.success, r.data is Some, r.error, ServiceError::MissingField),
        },
{
    let req = match (message, secret) {
        (Some(m), Some(s)) => MessageSignRequest { message: m.to_owned(), secret: s.to_owned() },
        _ => return MessageSignResponse { success: false, data: None, error: Some(ServiceError::MissingField.message()) },
    };
    match message_sign(&req) {
        Ok(d) => MessageSignResponse { success: true, data: Some(d), error: None },
        Err(e) => MessageSignResponse { success: false, data: None, error: Some(e.message()) },
    }
}

/// Verifies a signature from request fields, which may be absent.
pub fn message_verify_handler(message: Option<&str>, signature: Option<&str>, pubkey: Option<&str>)
    -> (r: MessageVerifyResponse)
    ensures
        match (message, signature, pubkey) {
            (Some(m), Some(s), Some(p)) => match verify_outcome(m@, s@, p@) {
                Ok(v) => r.success && r.error is None && (r.data matches Some(d) && d.valid == v && d.message@ == m@ && d.pubkey@ == p@),
                Err(e) => reports(r.success, r.data is Some, r.error, e),
            },
            _ => reports(r.success, r.data is Some, r.error, ServiceError::MissingField),
        },
{
    let req = match (message, signature, pubkey) {
        (Some(m), Some(s), Some(p)) => MessageVerifyRequest { message: m.to_owned(), signature: s.to_owned(), pubkey: p.to_owned() },
        _ => return MessageVerifyResponse { success: false, data: None, error: Some(ServiceError::MissingField.message()) },
    };
    match message_verify(&req) {
        Ok(d) => MessageVerifyResponse { success: true, data: Some(d), error: None },
        Err(e) => MessageVerifyResponse { success: false, data: None, error: Some(e.message()) },
    }
}

/// Builds a native-transfer instruction from request fields, which may be
/// absent.
pub fn send_sol_handler(from: Option<&str>, to: Option<&str>, lamports: Option<u64>) -> (r: SendSolResponse)
    ensures
        match (from, to, lamports) {
            (Some(f), Some(t), Some(n)) => match send_sol_outcome(f@, t@, n) {
                Ok(x) => r.success && r.error is None && (r.data matches Some(d) && sol_data_is(d, x)),
                Err(e) => reports(r.success, r.data is Some, r.error, e),
            },
            _ => reports(r.success, r.data is Some, r.error, ServiceError::MissingField),
        },
{
    let req = match (from, to, lamports) {
        (Some(f), Some(t), Some(n)) => SendSolRequest { from: f.to_owned(), to: t.to_owned(), lamports: n },
        _ => return SendSolResponse { success: false, data: None, error: Some(ServiceError::MissingField.message()) },
    };
    match send_sol(&req) {
        Ok(d) => SendSolResponse { success: true, data: Some(d), error: None },
        Err(e) => SendSolResponse { success: false, data: None, error: Some(e.message()) },
    }
}

/// Builds a token-transfer instruction from request fields, which may be
/// absent.
pub fn send_token_handler(destination: Option<&str>, mint: Option<&str>, owner: Option<&str>, amount: Option<u64>)
    -> (r: SendTokenResponse)
    ensures
        match (destination, mint, owner, amount) {
            (Some(d), Some(m), Some(o), Some(n)) => match send_token_outcome(d@, m@, o@, n) {
                Ok(x) => r.success && r.error is None && (r.data matches Some(out) && send_token_data_is(out, x)),
                Err(e) => reports(r.success, r.data is Some, r.error, e),
            },
            _ => reports(r.success, r.data is Some, r.error, ServiceError::MissingField),
        },
{
    let req = match (destination, mint, owner, amount) {
        (Some(d), Some(m), Some(o), Some(n)) =>
            SendTokenRequest { destination: d.to_owned(), mint: m.to_owned(), owner: o.to_owned(), amount: n },
        _ => return SendTokenResponse { success: false, data: None, error: Some(ServiceError::MissingField.message()) },
    };
    match send_token(&req) {
        Ok(d) => SendTokenResponse { success: true, data: Some(d), error: None },
        Err(e) => SendTokenResponse { success: false, data: None, error: Some(e.message()) },
    }
}

} // verus!
