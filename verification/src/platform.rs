//! The two computations this crate takes from the platform SDK: the SHA-256
//! digest and the base58 reading of an identity. Their contracts are believed,
//! not proved.

use anchor_lang::prelude::Pubkey;
use anchor_lang::solana_program::hash::hash;
use std::str::FromStr;
use vstd::prelude::*;

verus! {

/// The SHA-256 digest of a byte string.
pub uninterp spec fn sha256_digest(data: Seq<u8>) -> Seq<u8>;

/// The 32 bytes that a base58 text stands for, if it is the text form of an
/// identity.
pub uninterp spec fn base58_identity(text: Seq<char>) -> Option<Seq<u8>>;

/// Calls `solana_program::hash::hash` and takes the digest's bytes with
/// `Hash::to_bytes`. Believed: the digest depends on the input bytes alone.
#[verifier::external_body]
pub(crate) fn sha256(data: &[u8]) -> (digest: [u8; 32])
    ensures
        digest@ == sha256_digest(data@),
{
    hash(data).to_bytes()
}

/// Calls `Pubkey::from_str` and takes the key's bytes with `Pubkey::to_bytes`.
/// Believed: whether the text is accepted, and the bytes it then yields,
/// depend on the text alone.
#[verifier::external_body]
pub(crate) fn decode_identity(text: &str) -> (id: Option<[u8; 32]>)
    ensures
        match id {
            Some(bytes) => base58_identity(text@) == Some(bytes@),
            None => base58_identity(text@) is None,
        },
{
    match Pubkey::from_str(text) {
        Ok(key) => Some(key.to_bytes()),
        Err(_) => None,
    }
}

} // verus!
