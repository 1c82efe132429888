//! The proof a guardian with a security-key credential gives of an action.
//!
//! The platform checks the signature itself, in a companion step of the same
//! transaction. What is decided here is whether that step ran the expected
//! verifier on the guardian's key, and whether the message handed in is the
//! canonical one for the action.

use crate::encoding::bytes_equal;
use crate::errors::WalletError;
use crate::message::{build_canonical_message, canonical_message, Intent};
use crate::platform::{base58_identity, decode_identity};
use crate::payload::{extract_public_key_from_secp_instruction, payload_public_key};
use crate::state::wallet::Identity;
use vstd::prelude::*;

verus! {

/// The companion step as the instruction finds it: the program it ran and the
/// payload it ran on.
#[derive(Clone, Debug, PartialEq, Eq)]
pub struct VerificationRecord {
    pub program_id: Identity,
    pub data: Vec<u8>,
}

/// The text form of the identity of the expected verifier, the program that
/// checks signatures over the curve secp256r1.
pub open spec fn verifier_name() -> Seq<char> {
    "Secp256r1SigVerify1111111111111111111111111"@
}

/// What is decided of a proof, for a given identity of the expected verifier and a
/// given expected message. The checks run in this order, and the first that
/// fails names the error: a companion step is present, it ran the expected
/// verifier, its payload holds a key, the key is the guardian's, and the
/// message is the expected one.
pub open spec fn credential_check(
    record: Option<VerificationRecord>,
    verifier: Option<Seq<u8>>,
    pubkey: Seq<u8>,
    expected: Seq<u8>,
    message: Seq<u8>,
) -> Result<(), WalletError> {
    if record is None {
        Err(WalletError::MissingVerificationStep)
    } else if verifier != Some(record->0.program_id@) {
        Err(WalletError::UnsupportedVerificationTarget)
    } else if payload_public_key(record->0.data@) is Err {
        Err(payload_public_key(record->0.data@)->Err_0)
    } else if payload_public_key(record->0.data@)->Ok_0 != pubkey {
        Err(WalletError::PublicKeyMismatch)
    } else if message != expected {
        Err(WalletError::MessageMismatch)
    } else {
        Ok(())
    }
}

/// What is decided of a proof of a guardian's action: the check above, against
/// the expected verifier and the canonical message of the action.
pub open spec fn credential_verdict(
    record: Option<VerificationRecord>,
    intent: Intent,
    proposal_id: u64,
    guardian_id: u64,
    timestamp: i64,
    pubkey: Seq<u8>,
    message: Seq<u8>,
) -> Result<(), WalletError> {
    credential_check(
        record,
        base58_identity(verifier_name()),
        pubkey,
        canonical_message(intent, proposal_id, guardian_id, timestamp, pubkey),
        message,
    )
}

/// Decides on a credential proof, given the identity of the expected verifier
/// and the expected message.
pub fn check_credential(
    record: &Option<VerificationRecord>,
    verifier: &Option<Identity>,
    pubkey: &[u8; 33],
    expected: &[u8],
    message: &[u8],
) -> (verdict: Result<(), WalletError>)
    ensures
        verdict == credential_check(
            *record,
            match *verifier {
                Some(id) => Some(id@),
                None => None,
            },
            pubkey@,
            expected@,
            message@,
        ),
{
    let step = match record {
        Some(step) => step,
        None => {
            return Err(WalletError::MissingVerificationStep);
        },
    };
    let matches_verifier = match verifier {
        Some(id) => bytes_equal(step.program_id.as_slice(), id.as_slice()),
        None => false,
    };
    if !matches_verifier {
        return Err(WalletError::UnsupportedVerificationTarget);
    }
    let found = extract_public_key_from_secp_instruction(step.data.as_slice())?;
    if !bytes_equal(found.as_slice(), pubkey.as_slice()) {
        return Err(WalletError::PublicKeyMismatch);
    }
    if !bytes_equal(message, expected) {
        return Err(WalletError::MessageMismatch);
    }
    Ok(())
}

/// Decides whether a guardian with the given key has proved the action.
pub fn verify_guardian_credential(
    record: &Option<VerificationRecord>,
    intent: Intent,
    proposal_id: u64,
    guardian_id: u64,
    timestamp: i64,
    pubkey: &[u8; 33],
    message: &[u8],
) -> (verdict: Result<(), WalletError>)
    ensures
        verdict == credential_verdict(
            *record,
            intent,
            proposal_id,
            guardian_id,
            timestamp,
            pubkey@,
            message@,
        ),
{
    let verifier = decode_identity("Secp256r1SigVerify1111111111111111111111111");
    let expected = build_canonical_message(intent, proposal_id, guardian_id, timestamp, pubkey);
    check_credential(record, &verifier, pubkey, expected.as_slice(), message)
}

} // verus!
