use moon_wallet::message::{build_canonical_message, render_message, standardize_pubkey, Intent};

fn key() -> [u8; 33] {
    let mut key = [0u8; 33];
    key[0] = 2;
    for i in 1..33 {
        key[i] = i as u8;
    }
    key
}

#[test]
fn rendered_message_has_the_fixed_format() {
    let mut digest = [0u8; 32];
    digest[..6].copy_from_slice(&[0xde, 0xad, 0xbe, 0xef, 0x00, 0x7f]);
    digest[6] = 0x99;
    let message = render_message(Intent::Approve, 7, 3, 1700000000, &digest);
    assert_eq!(
        String::from_utf8(message).unwrap(),
        "approve:proposal_7,guardian_3,timestamp:1700000000,pubkey:deadbeef007f"
    );
}

#[test]
fn rendered_message_names_the_intent() {
    let digest = [0x11u8; 32];
    let message = render_message(Intent::Reject, 0, u64::MAX, -5, &digest);
    assert_eq!(
        String::from_utf8(message).unwrap(),
        "reject:proposal_0,guardian_18446744073709551615,timestamp:-5,pubkey:111111111111"
    );
}

#[test]
fn canonical_message_shows_the_digest_of_the_key() {
    let message = build_canonical_message(Intent::Approve, 42, 1, 1700000000, &key());
    assert_eq!(
        String::from_utf8(message).unwrap(),
        "approve:proposal_42,guardian_1,timestamp:1700000000,pubkey:cf8bf8b28ab0"
    );
}

#[test]
fn canonical_message_for_a_rejection() {
    let mut other = [0xabu8; 33];
    other[0] = 3;
    let message = build_canonical_message(Intent::Reject, 9, 12, 1, &other);
    assert_eq!(
        String::from_utf8(message).unwrap(),
        "reject:proposal_9,guardian_12,timestamp:1,pubkey:a64e2316a72b"
    );
}

#[test]
fn canonical_message_is_the_same_every_time() {
    let first = build_canonical_message(Intent::Approve, 5, 6, 7, &key());
    let second = build_canonical_message(Intent::Approve, 5, 6, 7, &key());
    assert_eq!(first, second);
}

#[test]
fn canonical_message_differs_by_intent() {
    let approve = build_canonical_message(Intent::Approve, 5, 6, 7, &key());
    let reject = build_canonical_message(Intent::Reject, 5, 6, 7, &key());
    assert_ne!(approve, reject);
}

#[test]
fn standard_form_of_a_key_is_the_key() {
    assert_eq!(standardize_pubkey(&key()), key());
}
