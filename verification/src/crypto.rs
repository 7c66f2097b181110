//! The cryptographic primitives the verifier leans on.
//!
//! Keccak-256, SHA-256 and secp256k1 public-key recovery are pure functions
//! of their inputs, but their definitions are far too large to restate here.
//! Each gets an uninterpreted name; the wrappers below tie the names to the
//! real implementations, and everything downstream speaks only of the names.

use vstd::prelude::*;

verus! {

/// The Keccak-256 digest of a byte string.
pub uninterp spec fn keccak256_of(data: Seq<u8>) -> Seq<u8>;

/// The SHA-256 digest of a byte string.
pub uninterp spec fn sha256_of(data: Seq<u8>) -> Seq<u8>;

/// The uncompressed 64-byte secp256k1 public key recovered from a 32-byte
/// message hash, a recovery id and a 64-byte `r || s` signature, or `None`
/// where the triple does not describe a recoverable signature.
pub uninterp spec fn secp256k1_recover_of(
    hash: Seq<u8>,
    recovery_id: u8,
    signature: Seq<u8>,
) -> Option<Seq<u8>>;

/// Relies on `anchor_lang::solana_program::keccak::hash`: the Keccak-256
/// digest of the input, 32 bytes, a function of the bytes alone.
#[verifier::external_body]
pub(crate) fn keccak256(data: &[u8]) -> (r: [u8; 32])
    ensures
        r@ == keccak256_of(data@),
{
    anchor_lang::solana_program::keccak::hash(data).to_bytes()
}

/// Relies on `anchor_lang::solana_program::hash::hash`: the SHA-256 digest
/// of the input, 32 bytes, a function of the bytes alone.
#[verifier::external_body]
pub(crate) fn sha256(data: &[u8]) -> (r: [u8; 32])
    ensures
        r@ == sha256_of(data@),
{
    anchor_lang::solana_program::hash::hash(data).to_bytes()
}

/// Relies on `anchor_lang::solana_program::secp256k1_recover::secp256k1_recover`:
/// ECDSA public-key recovery over secp256k1, deterministic in the hash, the
/// recovery id and the signature; `Err` becomes `None`.
#[verifier::external_body]
pub(crate) fn secp256k1_recover(hash: &[u8; 32], recovery_id: u8, signature: &[u8; 64]) -> (r:
    Option<[u8; 64]>)
    ensures
        r matches Some(pk) ==> secp256k1_recover_of(hash@, recovery_id, signature@) == Some(pk@),
        r is None ==> secp256k1_recover_of(hash@, recovery_id, signature@) is None,
{
    anchor_lang::solana_program::secp256k1_recover::secp256k1_recover(
        hash.as_slice(),
        recovery_id,
        signature.as_slice(),
    )
        .ok()
        .map(|pk| pk.to_bytes())
}

/// The 20-byte address a 64-byte public key answers to: the last 20 bytes of
/// its Keccak-256 digest, the address-derivation convention of account-based
/// chains.
pub open spec fn eth_address_of(pubkey: Seq<u8>) -> Seq<u8> {
    keccak256_of(pubkey).subrange(12, 32)
}

/// Derives the 20-byte address of an uncompressed public key.
pub fn eth_address(pubkey: &[u8; 64]) -> (addr: [u8; 20])
    ensures
        addr@ == eth_address_of(pubkey@),
{
    let digest = keccak256(pubkey.as_slice());
    let mut addr = [0u8; 20];
    let mut i: usize = 0;
    while i < 20
        invariant
            i <= 20,
            digest@ == keccak256_of(pubkey@),
            digest@.len() == 32,
            forall|j: int| 0 <= j < i ==> addr@[j] == digest@[12 + j],
        decreases 20 - i,
    {
        addr[i] = digest[12 + i];
        i = i + 1;
    }
    proof {
        assert(addr@ =~= eth_address_of(pubkey@));
    }
    addr
}

} // verus!
