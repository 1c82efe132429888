//! The message a guardian's credential signs.

use crate::encoding::{decimal, hex, push_decimal, push_signed_decimal, signed_decimal, to_hex};
use crate::platform::{sha256, sha256_digest};
use vstd::prelude::*;
use vstd::slice::slice_subrange;
use vstd::string::StringSliceAdditionalSpecFns;

verus! {

/// What a guardian says of a proposal.
#[derive(Clone, Copy, Debug, PartialEq, Eq, Structural)]
pub enum Intent {
    Approve,
    Reject,
}

impl Intent {
    /// The word that opens the message.
    pub open spec fn tag(self) -> Seq<u8> {
        match self {
            Intent::Approve => "approve".spec_bytes(),
            Intent::Reject => "reject".spec_bytes(),
        }
    }
}

/// How many bytes of the key's digest the message shows.
pub const DIGEST_PREFIX_LEN: usize = 6;

/// The message for a given digest of the guardian's key:
/// `<intent>:proposal_<id>,guardian_<id>,timestamp:<ts>,pubkey:<hex>`, the
/// numbers in decimal and `<hex>` the first six bytes of the digest in
/// lowercase hex.
pub open spec fn message_text(
    intent: Intent,
    proposal_id: u64,
    guardian_id: u64,
    timestamp: i64,
    digest: Seq<u8>,
) -> Seq<u8> {
    intent.tag() + ":proposal_".spec_bytes() + decimal(proposal_id as nat)
        + ",guardian_".spec_bytes() + decimal(guardian_id as nat) + ",timestamp:".spec_bytes()
        + signed_decimal(timestamp as int) + ",pubkey:".spec_bytes() + hex(
        digest.take(DIGEST_PREFIX_LEN as int),
    )
}

/// The one message that authorizes `intent` on a proposal by a guardian at a
/// time: the message text for the SHA-256 digest of the guardian's key.
pub open spec fn canonical_message(
    intent: Intent,
    proposal_id: u64,
    guardian_id: u64,
    timestamp: i64,
    pubkey: Seq<u8>,
) -> Seq<u8> {
    message_text(intent, proposal_id, guardian_id, timestamp, sha256_digest(pubkey))
}

fn push_text(out: &mut Vec<u8>, text: &str)
    ensures
        final(out)@ == old(out)@ + text.spec_bytes(),
{
    let bytes = text.as_bytes();
    let mut i: usize = 0;
    while i < bytes.len()
        invariant
            i <= bytes.len(),
            bytes@ == text.spec_bytes(),
            out@ == old(out)@ + bytes@.take(i as int),
        decreases bytes.len() - i,
    {
        assert(bytes@.take(i as int + 1) =~= bytes@.take(i as int).push(bytes@[i as int]));
        out.push(bytes[i]);
        i += 1;
    }
    assert(bytes@.take(i as int) =~= bytes@);
}

/// Writes the message for a given digest of the guardian's key.
pub fn render_message(
    intent: Intent,
    proposal_id: u64,
    guardian_id: u64,
    timestamp: i64,
    digest: &[u8; 32],
) -> (message: Vec<u8>)
    ensures
        message@ == message_text(intent, proposal_id, guardian_id, timestamp, digest@),
{
    let mut message: Vec<u8> = Vec::new();
    match intent {
        Intent::Approve => push_text(&mut message, "approve"),
        Intent::Reject => push_text(&mut message, "reject"),
    }
    assert(message@ =~= intent.tag());
    push_text(&mut message, ":proposal_");
    push_decimal(&mut message, proposal_id);
    push_text(&mut message, ",guardian_");
    push_decimal(&mut message, guardian_id);
    push_text(&mut message, ",timestamp:");
    push_signed_decimal(&mut message, timestamp);
    push_text(&mut message, ",pubkey:");
    let prefix = to_hex(slice_subrange(digest.as_slice(), 0, DIGEST_PREFIX_LEN));
    assert(digest@.subrange(0, DIGEST_PREFIX_LEN as int) =~= digest@.take(
        DIGEST_PREFIX_LEN as int,
    ));
    let mut i: usize = 0;
    let ghost head = message@;
    while i < prefix.len()
        invariant
            i <= prefix.len(),
            message@ == head + prefix@.take(i as int),
        decreases prefix.len() - i,
    {
        assert(prefix@.take(i as int + 1) =~= prefix@.take(i as int).push(prefix@[i as int]));
        message.push(prefix[i]);
        i += 1;
    }
    assert(prefix@.take(i as int) =~= prefix@);
    message
}

/// The key as it enters the digest. Keys are stored in the form that is
/// hashed, so this hands the key back as it is.
pub fn standardize_pubkey(pubkey: &[u8; 33]) -> (standard: [u8; 33])
    ensures
        standard == *pubkey,
{
    *pubkey
}

/// Writes the canonical message of a guardian with the given key.
pub fn build_canonical_message(
    intent: Intent,
    proposal_id: u64,
    guardian_id: u64,
    timestamp: i64,
    pubkey: &[u8; 33],
) -> (message: Vec<u8>)
    ensures
        message@ == canonical_message(intent, proposal_id, guardian_id, timestamp, pubkey@),
{
    let standard = standardize_pubkey(pubkey);
    let digest = sha256(standard.as_slice());
    render_message(intent, proposal_id, guardian_id, timestamp, &digest)
}

} // verus!
