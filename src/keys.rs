//! ed25519 key pairs, message signing and signature verification.

use vstd::prelude::*;
use crate::address::Address;
use solana_sdk::signature::Signer;
use ed25519_dalek::Verifier;

verus! {

/// The public key that ed25519 derives from a 32-byte secret seed.
pub uninterp spec fn public_of_secret(seed: Seq<u8>) -> Seq<u8>;

/// Whether 32 bytes are the compressed form of a point on the curve.
pub uninterp spec fn point_decodes(public: Seq<u8>) -> bool;

/// The ed25519 signature of a message's UTF-8 bytes under a 64-byte key pair.
pub uninterp spec fn signature_of(keypair: Seq<u8>, message: Seq<char>) -> Seq<u8>;

/// Whether ed25519 verification accepts a signature of a message's UTF-8
/// bytes under a public key.
pub uninterp spec fn ed25519_accepts(public: Seq<u8>, message: Seq<char>, signature: Seq<u8>) -> bool;

/// 64 bytes whose second half is the public key derived from the first.
pub open spec fn consistent_keypair(b: Seq<u8>) -> bool {
    b.len() == 64 && b.subrange(32, 64) == public_of_secret(b.subrange(0, 32))
}

/// The structural check on a signature: the top three bits of its last byte
/// (the high bits of the scalar) are clear.
pub open spec fn signature_well_formed(sig: Seq<u8>) -> bool {
    sig.len() == 64 && sig[63] < 32
}

/// A secret seed together with its public key, 64 bytes in all.
#[derive(Clone, Copy, Debug)]
pub struct Keypair {
    pub bytes: [u8; 64],
}

impl Keypair {
    pub open spec fn wf(&self) -> bool {
        consistent_keypair(self.bytes@) && point_decodes(self.bytes@.subrange(32, 64))
    }

    /// The public half.
    pub fn public(&self) -> (r: Address)
        ensures
            r.bytes@ == self.bytes@.subrange(32, 64),
    {
        let mut out: [u8; 32] = [0u8; 32];
        let mut i: usize = 0;
        while i < 32
            invariant
                0 <= i <= 32,
                forall|j: int| 0 <= j < i ==> out@[j] == self.bytes@[32 + j],
            decreases 32 - i,
        {
            out.set(i, self.bytes[32 + i]);
            i = i + 1;
        }
        let r = Address { bytes: out };
        proof {
            assert(r.bytes@ =~= self.bytes@.subrange(32, 64));
        }
        r
    }
}

/// Relies on solana_sdk's `Keypair::new`, which draws a seed from the operating
/// system's random source and derives its public key.
#[verifier::external_body]
fn random_keypair() -> (r: [u8; 64])
    ensures
        r@.subrange(32, 64) == public_of_secret(r@.subrange(0, 32)),
        point_decodes(r@.subrange(32, 64)),
{
    solana_sdk::signature::Keypair::new().to_bytes()
}

/// Relies on solana_sdk's `Keypair::from_bytes`: it accepts exactly the 64-byte
/// strings whose second half is the public key derived from the first, and
/// the second half then decodes as a point.
#[verifier::external_body]
fn keypair_from_bytes(b: &[u8]) -> (r: Option<[u8; 64]>)
    ensures
        match r {
            Some(k) => k@ == b@ && consistent_keypair(b@) && point_decodes(b@.subrange(32, 64)),
            None => !(b@.len() == 64 && b@.subrange(32, 64) == public_of_secret(b@.subrange(0, 32))),
        },
{
    solana_sdk::signature::Keypair::from_bytes(b).ok().map(|k| k.to_bytes())
}

/// Relies on solana_sdk's `Keypair::sign_message` (ed25519-dalek signing): the
/// signature is determined by key and message, has a reduced scalar, and
/// verifies under the key pair's public key.
#[verifier::external_body]
fn sign_with(keypair: &[u8; 64], message: &str) -> (r: [u8; 64])
    requires
        consistent_keypair(keypair@),
    ensures
        r@ == signature_of(keypair@, message@),
        signature_well_formed(r@),
        ed25519_accepts(keypair@.subrange(32, 64), message@, r@),
{
    let k = solana_sdk::signature::Keypair::from_bytes(keypair).unwrap();
    k.sign_message(message.as_bytes()).into()
}

/// Relies on ed25519-dalek's `PublicKey::from_bytes`: whether the bytes
/// decompress to a curve point.
#[verifier::external_body]
fn public_key_decodes(public: &[u8; 32]) -> (r: bool)
    ensures
        r == point_decodes(public@),
{
    ed25519_dalek::PublicKey::from_bytes(public).is_ok()
}

/// Relies on ed25519-dalek's `PublicKey::verify`, applied to a key and a
/// signature that have passed the structural checks.
#[verifier::external_body]
fn verify_with(public: &[u8; 32], message: &str, sig: &[u8; 64]) -> (r: bool)
    requires
        point_decodes(public@),
        signature_well_formed(sig@),
    ensures
        r == ed25519_accepts(public@, message@, sig@),
{
    let key = ed25519_dalek::PublicKey::from_bytes(public).unwrap();
    let sig = ed25519_dalek::Signature::from_bytes(sig).unwrap();
    key.verify(message.as_bytes(), &sig).is_ok()
}

/// A fresh key pair from a cryptographically secure random source.
pub fn generate() -> (r: Keypair)
    ensures
        r.wf(),
{
    Keypair { bytes: random_keypair() }
}

/// Rebuilds a key pair from raw bytes; `None` exactly where the bytes are not
/// 64 long with the public key of the first half as second half.
pub fn from_secret_bytes(b: &[u8]) -> (r: Option<Keypair>)
    ensures
        match r {
            Some(k) => k.bytes@ == b@ && k.wf(),
            None => !consistent_keypair(b@),
        },
{
    match keypair_from_bytes(b) {
        Some(bytes) => Some(Keypair { bytes }),
        None => None,
    }
}

/// Signs the UTF-8 bytes of `message`; the signature is well formed and
/// verifies under the key pair's public key.
pub fn sign(keypair: &Keypair, message: &str) -> (r: [u8; 64])
    requires
        keypair.wf(),
    ensures
        r@ == signature_of(keypair.bytes@, message@),
        signature_well_formed(r@),
        ed25519_accepts(keypair.bytes@.subrange(32, 64), message@, r@),
{
    sign_with(&keypair.bytes, message)
}

/// Whether `public` is an ed25519 public key.
pub fn is_valid_public_key(public: &Address) -> (r: bool)
    ensures
        r == point_decodes(public.bytes@),
{
    public_key_decodes(&public.bytes)
}

/// The cryptographic check of a structurally sound signature.
pub fn verify_signature(public: &Address, message: &str, sig: &[u8; 64]) -> (r: bool)
    requires
        point_decodes(public.bytes@),
        signature_well_formed(sig@),
    ensures
        r == ed25519_accepts(public.bytes@, message@, sig@),
{
    verify_with(&public.bytes, message, sig)
}

} // verus!
