use moon_wallet::credential::{check_credential, verify_guardian_credential, VerificationRecord};
use moon_wallet::errors::WalletError;
use moon_wallet::message::{build_canonical_message, Intent};

const VERIFIER: [u8; 32] = [
    6, 146, 13, 236, 47, 234, 113, 181, 183, 35, 129, 77, 116, 45, 169, 3, 28, 131, 231, 95, 219,
    121, 93, 86, 142, 117, 71, 128, 32, 0, 0, 0,
];

fn key() -> [u8; 33] {
    let mut key = [0u8; 33];
    key[0] = 2;
    for i in 1..33 {
        key[i] = i as u8;
    }
    key
}

fn payload_with(key: &[u8; 33]) -> Vec<u8> {
    let mut data = vec![0u8; 16];
    data[0] = 1;
    data[6] = 16;
    data.extend_from_slice(key);
    data
}

fn record() -> Option<VerificationRecord> {
    Some(VerificationRecord { program_id: VERIFIER, data: payload_with(&key()) })
}

#[test]
fn proof_with_the_canonical_message_is_accepted() {
    let message = build_canonical_message(Intent::Approve, 42, 1, 1700000000, &key());
    assert_eq!(
        verify_guardian_credential(
            &record(),
            Intent::Approve,
            42,
            1,
            1700000000,
            &key(),
            &message
        ),
        Ok(())
    );
}

#[test]
fn proof_with_the_literal_canonical_message_is_accepted() {
    let message = b"approve:proposal_42,guardian_1,timestamp:1700000000,pubkey:cf8bf8b28ab0";
    assert_eq!(
        verify_guardian_credential(
            &record(),
            Intent::Approve,
            42,
            1,
            1700000000,
            &key(),
            message
        ),
        Ok(())
    );
}

#[test]
fn missing_companion_step_is_refused() {
    let message = build_canonical_message(Intent::Approve, 42, 1, 1700000000, &key());
    assert_eq!(
        verify_guardian_credential(&None, Intent::Approve, 42, 1, 1700000000, &key(), &message),
        Err(WalletError::MissingVerificationStep)
    );
}

#[test]
fn companion_step_of_another_program_is_refused() {
    let message = build_canonical_message(Intent::Approve, 42, 1, 1700000000, &key());
    let mut other = VERIFIER;
    other[31] = 1;
    let record = Some(VerificationRecord { program_id: other, data: payload_with(&key()) });
    assert_eq!(
        verify_guardian_credential(&record, Intent::Approve, 42, 1, 1700000000, &key(), &message),
        Err(WalletError::UnsupportedVerificationTarget)
    );
}

#[test]
fn verifier_is_not_named_by_the_text_of_its_name() {
    let message = build_canonical_message(Intent::Approve, 42, 1, 1700000000, &key());
    let mut name = [0u8; 32];
    name.copy_from_slice(&b"Secp256r1SigVerify1111111111111111111111111"[..32]);
    let record = Some(VerificationRecord { program_id: name, data: payload_with(&key()) });
    assert_eq!(
        verify_guardian_credential(&record, Intent::Approve, 42, 1, 1700000000, &key(), &message),
        Err(WalletError::UnsupportedVerificationTarget)
    );
}

#[test]
fn wrong_target_is_reported_before_a_bad_payload() {
    let record = Some(VerificationRecord { program_id: [9u8; 32], data: vec![] });
    assert_eq!(
        verify_guardian_credential(&record, Intent::Approve, 42, 1, 1700000000, &key(), b""),
        Err(WalletError::UnsupportedVerificationTarget)
    );
}

#[test]
fn malformed_payload_is_refused() {
    let message = build_canonical_message(Intent::Approve, 42, 1, 1700000000, &key());
    let record = Some(VerificationRecord { program_id: VERIFIER, data: vec![1u8; 15] });
    assert_eq!(
        verify_guardian_credential(&record, Intent::Approve, 42, 1, 1700000000, &key(), &message),
        Err(WalletError::MalformedPayload)
    );
}

#[test]
fn batched_verification_is_refused() {
    let message = build_canonical_message(Intent::Approve, 42, 1, 1700000000, &key());
    let mut data = payload_with(&key());
    data[0] = 2;
    let record = Some(VerificationRecord { program_id: VERIFIER, data });
    assert_eq!(
        verify_guardian_credential(&record, Intent::Approve, 42, 1, 1700000000, &key(), &message),
        Err(WalletError::UnsupportedSignatureCount)
    );
}

#[test]
fn key_of_another_guardian_is_refused() {
    let message = build_canonical_message(Intent::Approve, 42, 1, 1700000000, &key());
    let mut other = key();
    other[32] ^= 1;
    let record = Some(VerificationRecord { program_id: VERIFIER, data: payload_with(&other) });
    assert_eq!(
        verify_guardian_credential(&record, Intent::Approve, 42, 1, 1700000000, &key(), &message),
        Err(WalletError::PublicKeyMismatch)
    );
}

#[test]
fn key_mismatch_is_reported_before_message_mismatch() {
    let mut other = key();
    other[0] = 3;
    let record = Some(VerificationRecord { program_id: VERIFIER, data: payload_with(&other) });
    assert_eq!(
        verify_guardian_credential(&record, Intent::Approve, 42, 1, 1700000000, &key(), b"x"),
        Err(WalletError::PublicKeyMismatch)
    );
}

#[test]
fn message_that_differs_in_one_byte_is_refused() {
    let canonical = build_canonical_message(Intent::Approve, 42, 1, 1700000000, &key());
    for i in 0..canonical.len() {
        let mut message = canonical.clone();
        message[i] ^= 0x01;
        assert_eq!(
            verify_guardian_credential(
                &record(),
                Intent::Approve,
                42,
                1,
                1700000000,
                &key(),
                &message
            ),
            Err(WalletError::MessageMismatch)
        );
    }
}

#[test]
fn message_that_is_one_byte_longer_or_shorter_is_refused() {
    let canonical = build_canonical_message(Intent::Approve, 42, 1, 1700000000, &key());
    let mut longer = canonical.clone();
    longer.push(b' ');
    let shorter = canonical[..canonical.len() - 1].to_vec();
    for message in [longer, shorter, Vec::new()] {
        assert_eq!(
            verify_guardian_credential(
                &record(),
                Intent::Approve,
                42,
                1,
                1700000000,
                &key(),
                &message
            ),
            Err(WalletError::MessageMismatch)
        );
    }
}

#[test]
fn message_for_another_intent_id_or_time_is_refused() {
    let others = [
        build_canonical_message(Intent::Reject, 42, 1, 1700000000, &key()),
        build_canonical_message(Intent::Approve, 43, 1, 1700000000, &key()),
        build_canonical_message(Intent::Approve, 42, 2, 1700000000, &key()),
        build_canonical_message(Intent::Approve, 42, 1, 1700000001, &key()),
    ];
    for message in others {
        assert_eq!(
            verify_guardian_credential(
                &record(),
                Intent::Approve,
                42,
                1,
                1700000000,
                &key(),
                &message
            ),
            Err(WalletError::MessageMismatch)
        );
    }
}

#[test]
fn check_with_a_given_verifier_and_message() {
    let record = Some(VerificationRecord { program_id: [7u8; 32], data: payload_with(&key()) });
    assert_eq!(check_credential(&record, &Some([7u8; 32]), &key(), b"signed", b"signed"), Ok(()));
    assert_eq!(
        check_credential(&record, &Some([7u8; 32]), &key(), b"signed", b"signeD"),
        Err(WalletError::MessageMismatch)
    );
    assert_eq!(
        check_credential(&record, &Some([8u8; 32]), &key(), b"signed", b"signed"),
        Err(WalletError::UnsupportedVerificationTarget)
    );
    assert_eq!(
        check_credential(&record, &None, &key(), b"signed", b"signed"),
        Err(WalletError::UnsupportedVerificationTarget)
    );
    assert_eq!(
        check_credential(&None, &Some([7u8; 32]), &key(), b"signed", b"signed"),
        Err(WalletError::MissingVerificationStep)
    );
}
