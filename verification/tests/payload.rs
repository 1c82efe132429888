use moon_wallet::errors::WalletError;
use moon_wallet::payload::extract_public_key_from_secp_instruction;

fn key() -> [u8; 33] {
    let mut key = [0u8; 33];
    key[0] = 2;
    for i in 1..33 {
        key[i] = i as u8;
    }
    key
}

fn payload(count: u8, offset: u16, total: usize) -> Vec<u8> {
    let mut data = vec![0u8; total];
    if total > 0 {
        data[0] = count;
    }
    if total >= 8 {
        data[6] = (offset & 0xff) as u8;
        data[7] = (offset >> 8) as u8;
    }
    let start = offset as usize;
    let key = key();
    for i in 0..33 {
        if start + i < total {
            data[start + i] = key[i];
        }
    }
    data
}

#[test]
fn empty_payload_is_malformed() {
    assert_eq!(
        extract_public_key_from_secp_instruction(&[]),
        Err(WalletError::MalformedPayload)
    );
}

#[test]
fn payload_shorter_than_the_header_is_malformed() {
    let data = payload(1, 0, 15);
    assert_eq!(
        extract_public_key_from_secp_instruction(&data),
        Err(WalletError::MalformedPayload)
    );
}

#[test]
fn short_payload_is_malformed_whatever_it_declares() {
    let data = payload(2, 0, 15);
    assert_eq!(
        extract_public_key_from_secp_instruction(&data),
        Err(WalletError::MalformedPayload)
    );
}

#[test]
fn payload_with_two_signatures_is_refused() {
    let data = payload(2, 16, 16 + 33);
    assert_eq!(
        extract_public_key_from_secp_instruction(&data),
        Err(WalletError::UnsupportedSignatureCount)
    );
}

#[test]
fn payload_with_no_signature_is_refused() {
    let data = payload(0, 16, 16 + 33);
    assert_eq!(
        extract_public_key_from_secp_instruction(&data),
        Err(WalletError::UnsupportedSignatureCount)
    );
}

#[test]
fn offset_past_the_end_is_malformed() {
    let mut data = payload(1, 16, 16 + 33);
    data[6] = 0xff;
    data[7] = 0xff;
    assert_eq!(
        extract_public_key_from_secp_instruction(&data),
        Err(WalletError::MalformedPayload)
    );
}

#[test]
fn key_that_ends_one_byte_past_the_end_is_malformed() {
    let data = payload(1, 16, 16 + 32);
    assert_eq!(
        extract_public_key_from_secp_instruction(&data),
        Err(WalletError::MalformedPayload)
    );
}

#[test]
fn key_that_ends_with_the_payload_is_returned() {
    let data = payload(1, 16, 16 + 33);
    assert_eq!(extract_public_key_from_secp_instruction(&data), Ok(key()));
}

#[test]
fn key_is_read_at_the_declared_offset() {
    let data = payload(1, 80, 200);
    assert_eq!(extract_public_key_from_secp_instruction(&data), Ok(key()));
}

#[test]
fn offset_uses_both_of_its_bytes_low_byte_first() {
    let data = payload(1, 0x0102, 0x0102 + 33);
    assert_eq!(data[6], 0x02);
    assert_eq!(data[7], 0x01);
    assert_eq!(extract_public_key_from_secp_instruction(&data), Ok(key()));
}

#[test]
fn offset_inside_the_header_reads_the_header() {
    let mut data = vec![0u8; 40];
    data[0] = 1;
    let found = extract_public_key_from_secp_instruction(&data).unwrap();
    assert_eq!(found[0], 1);
    assert_eq!(&found[1..], &[0u8; 32][..]);
}
