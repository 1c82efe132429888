//! The wallet and the parameters a caller proposes an action with.

use crate::encoding::bytes_equal;
use vstd::prelude::*;

verus! {

/// The 32-byte identity of an account, a program or a token mint.
pub type Identity = [u8; 32];

/// Whether two identities are the same.
pub fn same_identity(a: &Identity, b: &Identity) -> (same: bool)
    ensures
        same == (*a == *b),
{
    let same = bytes_equal(a.as_slice(), b.as_slice());
    assert(a@ == b@ ==> *a =~= *b);
    same
}

/// The wallet's own state.
#[derive(Clone, Debug, PartialEq, Eq)]
pub struct MultiSigWallet {
    /// How many approvals a proposal needs.
    pub threshold: u8,
    /// How many guardians the wallet has.
    pub guardian_count: u8,
    pub recovery_nonce: u64,
    pub bump: u8,
    /// Counts the proposals executed so far.
    pub transaction_nonce: u64,
    /// When the last proposal was executed.
    pub last_transaction_timestamp: i64,
    pub owner: Identity,
    /// The credential from which the wallet's address is derived.
    pub credential_id: String,
}

impl MultiSigWallet {
    /// A wallet has at least one guardian and asks for no more approvals than
    /// it has guardians.
    pub open spec fn well_formed(&self) -> bool {
        1 <= self.guardian_count && self.threshold <= self.guardian_count
    }
}

/// The parameters that come with a proposed action; which of them must be
/// present depends on the action.
#[derive(Clone, Copy, Debug, PartialEq, Eq)]
pub struct ActionParams {
    pub amount: Option<u64>,
    pub destination: Option<Identity>,
    pub token_mint: Option<Identity>,
    pub token_amount: Option<u64>,
}

} // verus!
