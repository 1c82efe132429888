//! The payload of the companion step that verified a signature.

use crate::errors::WalletError;
use vstd::prelude::*;

verus! {

/// The payload starts with a header of this many bytes.
pub const HEADER_LEN: usize = 16;

/// A compressed public key takes this many bytes.
pub const PUBLIC_KEY_LEN: usize = 33;

/// Where the payload says its public key starts: the 16-bit little-endian
/// number in bytes 6 and 7.
pub open spec fn public_key_offset(data: Seq<u8>) -> int {
    data[6] as int + 256 * data[7] as int
}

/// The public key a payload holds, or why it holds none. The payload must
/// hold a whole header, declare exactly one signature in its first byte, and
/// reach as far as the key does.
pub open spec fn payload_public_key(data: Seq<u8>) -> Result<Seq<u8>, WalletError> {
    if data.len() < HEADER_LEN {
        Err(WalletError::MalformedPayload)
    } else if data[0] != 1 {
        Err(WalletError::UnsupportedSignatureCount)
    } else if data.len() < public_key_offset(data) + PUBLIC_KEY_LEN {
        Err(WalletError::MalformedPayload)
    } else {
        Ok(data.subrange(public_key_offset(data), public_key_offset(data) + PUBLIC_KEY_LEN))
    }
}

/// Takes the public key out of a verification payload.
pub fn extract_public_key_from_secp_instruction(data: &[u8]) -> (key: Result<[u8; 33], WalletError>)
    ensures
        match key {
            Ok(bytes) => payload_public_key(data@) == Ok::<Seq<u8>, WalletError>(bytes@),
            Err(e) => payload_public_key(data@) == Err::<Seq<u8>, WalletError>(e),
        },
{
    if data.len() < HEADER_LEN {
        return Err(WalletError::MalformedPayload);
    }
    if data[0] != 1 {
        return Err(WalletError::UnsupportedSignatureCount);
    }
    let offset: usize = data[6] as usize + 256 * (data[7] as usize);
    if data.len() < offset + PUBLIC_KEY_LEN {
        return Err(WalletError::MalformedPayload);
    }
    let mut key: [u8; 33] = [0u8; 33];
    let mut i: usize = 0;
    while i < PUBLIC_KEY_LEN
        invariant
            i <= PUBLIC_KEY_LEN,
            offset + PUBLIC_KEY_LEN <= data.len(),
            forall|j: int| 0 <= j < i ==> key@[j] == data@[offset + j],
        decreases PUBLIC_KEY_LEN - i,
    {
        key[i] = data[offset + i];
        i += 1;
    }
    assert(key@ =~= data@.subrange(offset as int, offset + PUBLIC_KEY_LEN));
    Ok(key)
}

} // verus!
