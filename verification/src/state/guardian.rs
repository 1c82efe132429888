//! A guardian of a wallet.

use crate::state::wallet::Identity;
use vstd::prelude::*;

verus! {

/// An approver bound to one wallet.
#[derive(Clone, Copy, Debug, PartialEq, Eq)]
pub struct Guardian {
    pub wallet: Identity,
    pub guardian_id: u64,
    /// Only an active guardian may approve or reject.
    pub is_active: bool,
    /// The compressed public key of the guardian's security-key credential,
    /// if it registered one.
    pub webauthn_pubkey: Option<[u8; 33]>,
    pub bump: u8,
}

} // verus!
