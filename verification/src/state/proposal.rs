//! Proposals, the actions they carry and the records of their approvals.

use crate::errors::WalletError;
use crate::state::wallet::{ActionParams, Identity};
use vstd::prelude::*;
use vstd::string::StringExecFns;

verus! {

/// Where a proposal stands. `Executed` and `Rejected` are final.
#[derive(Clone, Copy, Debug, PartialEq, Eq, Structural)]
pub enum ProposalStatus {
    Pending,
    Executed,
    Rejected,
}

/// What a proposal asks the wallet to do, with the parameters the action
/// needs.
#[derive(Clone, Copy, Debug, PartialEq, Eq)]
pub enum ProposalAction {
    /// Move `amount` of the native asset to `destination`.
    Transfer { amount: u64, destination: Identity },
    /// Move `token_amount` of the token `token_mint` to `destination`.
    TransferToken { token_mint: Identity, token_amount: u64, destination: Identity },
}

/// A request to carry out one action, once enough guardians have approved it.
#[derive(Clone, Debug, PartialEq, Eq)]
pub struct TransactionProposal {
    /// The wallet the proposal belongs to.
    pub multisig: Identity,
    pub proposal_id: u64,
    /// The guardian that made the proposal.
    pub proposer: Identity,
    pub description: String,
    pub action: ProposalAction,
    pub status: ProposalStatus,
    pub created_at: i64,
    pub executed_at: Option<i64>,
    /// How many guardians have approved so far.
    pub signatures_count: u8,
    /// The wallet's threshold at the time the proposal was made.
    pub required_signatures: u8,
    pub bump: u8,
}

/// The record of one guardian's approval of one proposal.
#[derive(Clone, Copy, Debug, PartialEq, Eq)]
pub struct ProposalSignature {
    pub proposal: Identity,
    pub guardian_id: u64,
    pub signature_time: i64,
    pub bump: u8,
}

/// The action that a tag and its parameters describe: `transfer` needs an
/// amount and a destination, `transfer_token` a mint, a token amount and a
/// destination. Parameters the action does not need are ignored.
pub open spec fn resolved_action(tag: Seq<char>, params: ActionParams) -> Result<
    ProposalAction,
    WalletError,
> {
    if tag == "transfer"@ {
        if params.amount is Some && params.destination is Some {
            Ok(
                ProposalAction::Transfer {
                    amount: params.amount->0,
                    destination: params.destination->0,
                },
            )
        } else {
            Err(WalletError::InvalidOperation)
        }
    } else if tag == "transfer_token"@ {
        if params.token_mint is Some && params.token_amount is Some && params.destination is Some {
            Ok(
                ProposalAction::TransferToken {
                    token_mint: params.token_mint->0,
                    token_amount: params.token_amount->0,
                    destination: params.destination->0,
                },
            )
        } else {
            Err(WalletError::InvalidOperation)
        }
    } else {
        Err(WalletError::UnsupportedAction)
    }
}

/// Reads an action from its tag and parameters.
pub fn resolve_action(tag: &String, params: &ActionParams) -> (action: Result<
    ProposalAction,
    WalletError,
>)
    ensures
        action == resolved_action(tag@, *params),
{
    if *tag == String::from_str("transfer") {
        match (params.amount, params.destination) {
            (Some(amount), Some(destination)) => Ok(
                ProposalAction::Transfer { amount, destination },
            ),
            _ => Err(WalletError::InvalidOperation),
        }
    } else if *tag == String::from_str("transfer_token") {
        match (params.token_mint, params.token_amount, params.destination) {
            (Some(token_mint), Some(token_amount), Some(destination)) => Ok(
                ProposalAction::TransferToken { token_mint, token_amount, destination },
            ),
            _ => Err(WalletError::InvalidOperation),
        }
    } else {
        Err(WalletError::UnsupportedAction)
    }
}

} // verus!
