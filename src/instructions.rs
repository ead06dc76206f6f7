//! Instruction payloads: the program, the ordered accounts with their signer
//! and writable flags, and the encoded instruction data.

use vstd::prelude::*;
use crate::address::Address;
use solana_program::pubkey::Pubkey;

verus! {

/// The token program's id (base58 `TokenkegQfeZyiNwAJbNbGKPFXCWuBvf9Ss623VQ5DA`).
pub const TOKEN_PROGRAM_ID: [u8; 32] = [
    6, 221, 246, 225, 215, 101, 161, 147, 217, 203, 225, 70, 206, 235, 121, 172,
    28, 180, 133, 237, 95, 91, 55, 145, 58, 140, 245, 133, 126, 255, 0, 169,
];

/// The rent sysvar's id (base58 `SysvarRent111111111111111111111111111111111`).
pub const RENT_SYSVAR_ID: [u8; 32] = [
    6, 167, 213, 23, 25, 44, 92, 81, 33, 140, 201, 76, 61, 74, 241, 127,
    88, 218, 238, 8, 155, 161, 253, 68, 227, 219, 217, 138, 0, 0, 0, 0,
];

/// The system program's id: 32 zero bytes.
pub const SYSTEM_PROGRAM_ID: [u8; 32] = [
    0, 0, 0, 0, 0, 0, 0, 0, 0, 0, 0, 0, 0, 0, 0, 0,
    0, 0, 0, 0, 0, 0, 0, 0, 0, 0, 0, 0, 0, 0, 0, 0,
];

/// One account that an instruction reads or writes.
#[derive(Clone, Copy, Debug)]
pub struct AccountRef {
    pub address: Address,
    pub is_signer: bool,
    pub is_writable: bool,
}

/// A program id, its ordered accounts and its opaque data.
#[derive(Clone, Debug)]
pub struct InstructionPayload {
    pub program_id: Address,
    pub accounts: Vec<AccountRef>,
    pub data: Vec<u8>,
}

/// An account's address and flags as plain values.
pub open spec fn account_view(a: AccountRef) -> (Seq<u8>, bool, bool) {
    (a.address.bytes@, a.is_signer, a.is_writable)
}

/// `p` is the instruction for `program` with exactly `accounts`, in that
/// order and with those flags, and `data`.
pub open spec fn payload_is(
    p: InstructionPayload,
    program: Seq<u8>,
    accounts: Seq<(Seq<u8>, bool, bool)>,
    data: Seq<u8>,
) -> bool {
    &&& p.program_id.bytes@ == program
    &&& p.accounts@.map_values(|a: AccountRef| account_view(a)) == accounts
    &&& p.data@ == data
}

/// The eight little-endian bytes of `n`.
pub open spec fn le_bytes(n: u64) -> Seq<u8> {
    seq![
        (n % 0x100) as u8,
        ((n / 0x100) % 0x100) as u8,
        ((n / 0x1_0000) % 0x100) as u8,
        ((n / 0x100_0000) % 0x100) as u8,
        ((n / 0x1_0000_0000) % 0x100) as u8,
        ((n / 0x100_0000_0000) % 0x100) as u8,
        ((n / 0x1_0000_0000_0000) % 0x100) as u8,
        ((n / 0x100_0000_0000_0000) % 0x100) as u8,
    ]
}

/// Data of the token program's mint initialisation with no freeze authority.
pub open spec fn mint_init_data(authority: Seq<u8>, decimals: u8) -> Seq<u8> {
    seq![0u8, decimals] + authority + seq![0u8]
}

/// Data of the token program's `MintTo`.
pub open spec fn mint_to_data(amount: u64) -> Seq<u8> {
    seq![7u8] + le_bytes(amount)
}

/// Data of the token program's `Transfer`.
pub open spec fn token_transfer_data(amount: u64) -> Seq<u8> {
    seq![3u8] + le_bytes(amount)
}

/// Data of the system program's `Transfer`: the variant index as a
/// little-endian u32, then the amount.
pub open spec fn system_transfer_data(lamports: u64) -> Seq<u8> {
    seq![2u8, 0u8, 0u8, 0u8] + le_bytes(lamports)
}

#[verifier::external_type_specification]
#[verifier::external_body]
pub struct ExInstruction(solana_program::instruction::Instruction);

#[verifier::external_type_specification]
#[verifier::external_body]
pub struct ExProgramError(solana_program::program_error::ProgramError);

/// Moves an instruction's fields into plain values, account order kept.
#[verifier::external_body]
fn payload_from(ix: solana_program::instruction::Instruction) -> InstructionPayload {
    let accounts = ix.accounts.iter().map(|m| AccountRef {
        address: Address { bytes: m.pubkey.to_bytes() },
        is_signer: m.is_signer,
        is_writable: m.is_writable,
    }).collect();
    InstructionPayload { program_id: Address { bytes: ix.program_id.to_bytes() }, accounts, data: ix.data }
}

/// Relies on spl_token's `instruction::initialize_mint` with the token
/// program's own id and no freeze authority: it accepts that id, lists the
/// mint (writable) and the rent sysvar (read-only), and packs tag 0, the
/// decimals, the authority and a zero option tag.
#[verifier::external_body]
fn spl_initialize_mint(mint: &Address, authority: &Address, decimals: u8)
    -> (r: Result<InstructionPayload, solana_program::program_error::ProgramError>)
    ensures
        match r {
            Ok(p) => payload_is(p, TOKEN_PROGRAM_ID@,
            seq![(mint.bytes@, false, true), (RENT_SYSVAR_ID@, false, false)],
            mint_init_data(authority.bytes@, decimals)),
            Err(_) => false,
        },
{
    let (m, a) = (Pubkey::new_from_array(mint.bytes), Pubkey::new_from_array(authority.bytes));
    spl_token::instruction::initialize_mint(&spl_token::id(), &m, &a, None, decimals).map(payload_from)
}

/// Relies on spl_token's `instruction::mint_to` with the token program's own
/// id and no multisig signers: mint and destination writable, authority a
/// read-only signer, data tag 7 and the amount.
#[verifier::external_body]
fn spl_mint_to(mint: &Address, destination: &Address, authority: &Address, amount: u64)
    -> (r: Result<InstructionPayload, solana_program::program_error::ProgramError>)
    ensures
        match r {
            Ok(p) => payload_is(p, TOKEN_PROGRAM_ID@,
            seq![(mint.bytes@, false, true), (destination.bytes@, false, true), (authority.bytes@, true, false)],
            mint_to_data(amount)),
            Err(_) => false,
        },
{
    let (m, d) = (Pubkey::new_from_array(mint.bytes), Pubkey::new_from_array(destination.bytes));
    let a = Pubkey::new_from_array(authority.bytes);
    spl_token::instruction::mint_to(&spl_token::id(), &m, &d, &a, &[], amount).map(payload_from)
}

/// Relies on spl_token's `instruction::transfer` with the token program's own
/// id and no multisig signers: source and destination writable, owner a
/// read-only signer, data tag 3 and the amount.
#[verifier::external_body]
fn spl_transfer(source: &Address, destination: &Address, owner: &Address, amount: u64)
    -> (r: Result<InstructionPayload, solana_program::program_error::ProgramError>)
    ensures
        match r {
            Ok(p) => payload_is(p, TOKEN_PROGRAM_ID@,
            seq![(source.bytes@, false, true), (destination.bytes@, false, true), (owner.bytes@, true, false)],
            token_transfer_data(amount)),
            Err(_) => false,
        },
{
    let (s, d) = (Pubkey::new_from_array(source.bytes), Pubkey::new_from_array(destination.bytes));
    let o = Pubkey::new_from_array(owner.bytes);
    spl_token::instruction::transfer(&spl_token::id(), &s, &d, &o, &[], amount).map(payload_from)
}

/// Relies on solana_program's `system_instruction::transfer`: sender a
/// writable signer, recipient writable, data the bincode form of the
/// `Transfer` variant (index 2) with the amount.
#[verifier::external_body]
fn system_transfer(from: &Address, to: &Address, lamports: u64) -> (r: InstructionPayload)
    ensures
        payload_is(r, SYSTEM_PROGRAM_ID@,
            seq![(from.bytes@, true, true), (to.bytes@, false, true)],
            system_transfer_data(lamports)),
{
    let (f, t) = (Pubkey::new_from_array(from.bytes), Pubkey::new_from_array(to.bytes));
    payload_from(solana_program::system_instruction::transfer(&f, &t, lamports))
}

/// Relies on `ProgramError`'s `Display`: a description for the caller.
#[verifier::external_body]
fn program_error_text(e: &solana_program::program_error::ProgramError) -> String {
    e.to_string()
}

/// The encoder's refusal as a construction failure.
fn construction_failure(e: &solana_program::program_error::ProgramError) -> (r: crate::error::ServiceError)
    ensures
        r is ConstructionFailure,
{
    crate::error::ServiceError::ConstructionFailure(program_error_text(e))
}

/// Mint initialisation: the mint (writable) and the rent sysvar (read-only),
/// data carrying the decimals and the mint authority, no freeze authority.
pub fn build_mint_init(mint: &Address, authority: &Address, decimals: u8)
    -> (r: Result<InstructionPayload, crate::error::ServiceError>)
    ensures
        r matches Ok(p) && payload_is(p, TOKEN_PROGRAM_ID@,
            seq![(mint.bytes@, false, true), (RENT_SYSVAR_ID@, false, false)],
            mint_init_data(authority.bytes@, decimals)),
{
    match spl_initialize_mint(mint, authority, decimals) {
        Ok(p) => Ok(p),
        Err(e) => Err(construction_failure(&e)),
    }
}

/// Minting `amount` to `destination`: mint and destination writable, the
/// authority a signer.
pub fn build_mint_to(mint: &Address, destination: &Address, authority: &Address, amount: u64)
    -> (r: Result<InstructionPayload, crate::error::ServiceError>)
    ensures
        r matches Ok(p) && payload_is(p, TOKEN_PROGRAM_ID@,
            seq![(mint.bytes@, false, true), (destination.bytes@, false, true), (authority.bytes@, true, false)],
            mint_to_data(amount)),
{
    match spl_mint_to(mint, destination, authority, amount) {
        Ok(p) => Ok(p),
        Err(e) => Err(construction_failure(&e)),
    }
}

/// A token transfer from the token account `source` to `destination`,
/// signed by `owner`: source and destination writable, owner a signer.
pub fn build_token_transfer(source: &Address, destination: &Address, owner: &Address, amount: u64)
    -> (r: Result<InstructionPayload, crate::error::ServiceError>)
    ensures
        r matches Ok(p) && payload_is(p, TOKEN_PROGRAM_ID@,
            seq![(source.bytes@, false, true), (destination.bytes@, false, true), (owner.bytes@, true, false)],
            token_transfer_data(amount)),
{
    match spl_transfer(source, destination, owner, amount) {
        Ok(p) => Ok(p),
        Err(e) => Err(construction_failure(&e)),
    }
}

/// A native-currency transfer of a positive amount; zero is refused.
pub fn build_native_transfer(from: &Address, to: &Address, lamports: u64)
    -> (r: Result<InstructionPayload, crate::error::ServiceError>)
    ensures
        lamports == 0 ==> r == Err::<InstructionPayload, crate::error::ServiceError>(
            crate::error::ServiceError::DomainRuleViolation(crate::error::Field::Lamports)),
        lamports > 0 ==> (r matches Ok(p) && payload_is(p, SYSTEM_PROGRAM_ID@,
            seq![(from.bytes@, true, true), (to.bytes@, false, true)],
            system_transfer_data(lamports))),
{
    if lamports == 0 {
        return Err(crate::error::ServiceError::DomainRuleViolation(crate::error::Field::Lamports));
    }
    Ok(system_transfer(from, to, lamports))
}

} // verus!
