//! The life of a proposal: it is created, guardians approve or reject it, and
//! once enough have approved, anyone may have it executed, once.
//!
//! Each instruction runs on a snapshot of the accounts it touches. It either
//! succeeds and changes the snapshot as its contract says, or fails with the
//! first error its checks meet and leaves the snapshot as it was.

use crate::credential::{credential_verdict, verify_guardian_credential, VerificationRecord};
use crate::errors::WalletError;
use crate::message::Intent;
use crate::state::account::{Account, AccountInfo, Clock, Context, Slot};
use crate::state::guardian::Guardian;
use crate::state::proposal::{
    resolve_action,
    resolved_action,
    ProposalAction,
    ProposalSignature,
    ProposalStatus,
    TransactionProposal,
};
use crate::state::wallet::{same_identity, ActionParams, Identity, MultiSigWallet};
use vstd::prelude::*;

verus! {

/// A timestamp may lie this many seconds ahead of the clock.
pub const MAX_CLOCK_LEAD: i64 = 60;

/// A timestamp may lie this many seconds behind the clock.
pub const MAX_CLOCK_LAG: i64 = 300;

/// The accounts of `create_proposal`.
#[derive(Clone, Debug, PartialEq, Eq)]
pub struct CreateProposal {
    pub multisig: Account<MultiSigWallet>,
    /// Where the proposal is created.
    pub proposal: Slot<TransactionProposal>,
    pub proposer_guardian: Account<Guardian>,
    pub clock: Clock,
}

/// The accounts of `approve_proposal`.
#[derive(Clone, Debug, PartialEq, Eq)]
pub struct ApproveProposal {
    pub multisig: Account<MultiSigWallet>,
    pub proposal: Account<TransactionProposal>,
    /// Where the record of this guardian's approval of this proposal is
    /// created.
    pub signature: Slot<ProposalSignature>,
    pub guardian: Account<Guardian>,
    /// The companion verification step, if the transaction has one.
    pub instruction_sysvar: Option<VerificationRecord>,
    pub clock: Clock,
}

/// The accounts of `reject_proposal`.
#[derive(Clone, Debug, PartialEq, Eq)]
pub struct RejectProposal {
    pub multisig: Account<MultiSigWallet>,
    pub proposal: Account<TransactionProposal>,
    pub guardian: Account<Guardian>,
    /// The companion verification step, if the transaction has one.
    pub instruction_sysvar: Option<VerificationRecord>,
    pub clock: Clock,
}

/// The accounts of `execute_proposal`.
#[derive(Clone, Debug, PartialEq, Eq)]
pub struct ExecuteProposal {
    pub multisig: Account<MultiSigWallet>,
    pub proposal: Account<TransactionProposal>,
    /// The account that receives the amount. Where it has the wallet's own
    /// address, it stands for the wallet's account and its balance is the
    /// one that counts.
    pub destination: AccountInfo,
    pub clock: Clock,
}

/// A token account, as far as an instruction reads it.
#[derive(Clone, Copy, Debug, PartialEq, Eq)]
pub struct TokenAccount {
    pub key: Identity,
    pub mint: Identity,
}

/// The accounts of `execute_token_proposal`.
#[derive(Clone, Debug, PartialEq, Eq)]
pub struct ExecuteTokenProposal {
    pub multisig: Account<MultiSigWallet>,
    pub proposal: Account<TransactionProposal>,
    pub from_token_account: TokenAccount,
    pub to_token_account: TokenAccount,
    pub clock: Clock,
}

/// The order to the token service that an executed token proposal gives: move
/// `amount` from one token account to another, on the wallet's authority.
#[derive(Clone, Copy, Debug, PartialEq, Eq)]
pub struct TokenTransfer {
    pub from: Identity,
    pub to: Identity,
    pub authority: Identity,
    pub amount: u64,
}

/// A timestamp is fresh from five minutes before the clock to one minute
/// after it, both ends included.
pub open spec fn timestamp_check(timestamp: i64, now: i64) -> Result<(), WalletError> {
    if timestamp > now + MAX_CLOCK_LEAD {
        Err(WalletError::FutureTimestamp)
    } else if timestamp < now - MAX_CLOCK_LAG {
        Err(WalletError::ExpiredTimestamp)
    } else {
        Ok(())
    }
}

/// Decides whether a timestamp is fresh.
pub fn check_timestamp(timestamp: i64, now: i64) -> (verdict: Result<(), WalletError>)
    ensures
        verdict == timestamp_check(timestamp, now),
{
    let stamp: i128 = timestamp as i128;
    let current: i128 = now as i128;
    if stamp > current + MAX_CLOCK_LEAD as i128 {
        Err(WalletError::FutureTimestamp)
    } else if stamp < current - MAX_CLOCK_LAG as i128 {
        Err(WalletError::ExpiredTimestamp)
    } else {
        Ok(())
    }
}

/// What a guardian needs before it may approve or reject, whatever its
/// credential: the proposal is pending and belongs to the wallet, the
/// guardian is active, the wallet account is this program's, and the
/// timestamp is fresh. The first check that fails names the error.
pub open spec fn guardian_action_check(
    program_id: Identity,
    multisig: Account<MultiSigWallet>,
    proposal: Account<TransactionProposal>,
    guardian: Account<Guardian>,
    clock: Clock,
    timestamp: i64,
) -> Result<(), WalletError> {
    if proposal.data.status != ProposalStatus::Pending {
        Err(WalletError::InvalidOperation)
    } else if multisig.key != proposal.data.multisig {
        Err(WalletError::MultisigMismatch)
    } else if !guardian.data.is_active {
        Err(WalletError::InactiveGuardian)
    } else if multisig.owner != program_id {
        Err(WalletError::InvalidOwner)
    } else {
        timestamp_check(timestamp, clock.unix_timestamp)
    }
}

/// The verdict on the guardian's proof: none is asked of a guardian without a
/// registered key.
pub open spec fn guardian_proof_check(
    guardian: Guardian,
    record: Option<VerificationRecord>,
    intent: Intent,
    proposal_id: u64,
    guardian_id: u64,
    timestamp: i64,
    message: Seq<u8>,
) -> Result<(), WalletError> {
    match guardian.webauthn_pubkey {
        Some(pubkey) => credential_verdict(
            record,
            intent,
            proposal_id,
            guardian_id,
            timestamp,
            pubkey@,
            message,
        ),
        None => Ok(()),
    }
}

fn check_guardian_action(
    program_id: &Identity,
    multisig: &Account<MultiSigWallet>,
    proposal: &Account<TransactionProposal>,
    guardian: &Account<Guardian>,
    clock: &Clock,
    timestamp: i64,
) -> (verdict: Result<(), WalletError>)
    ensures
        verdict == guardian_action_check(
            *program_id,
            *multisig,
            *proposal,
            *guardian,
            *clock,
            timestamp,
        ),
{
    if proposal.data.status != ProposalStatus::Pending {
        return Err(WalletError::InvalidOperation);
    }
    if !same_identity(&multisig.key, &proposal.data.multisig) {
        return Err(WalletError::MultisigMismatch);
    }
    if !guardian.data.is_active {
        return Err(WalletError::InactiveGuardian);
    }
    if !same_identity(&multisig.owner, program_id) {
        return Err(WalletError::InvalidOwner);
    }
    check_timestamp(timestamp, clock.unix_timestamp)
}

fn check_guardian_proof(
    guardian: &Guardian,
    record: &Option<VerificationRecord>,
    intent: Intent,
    proposal_id: u64,
    guardian_id: u64,
    timestamp: i64,
    message: &[u8],
) -> (verdict: Result<(), WalletError>)
    ensures
        verdict == guardian_proof_check(
            *guardian,
            *record,
            intent,
            proposal_id,
            guardian_id,
            timestamp,
            message@,
        ),
{
    match guardian.webauthn_pubkey {
        Some(pubkey) => verify_guardian_credential(
            record,
            intent,
            proposal_id,
            guardian_id,
            timestamp,
            &pubkey,
            message,
        ),
        None => Ok(()),
    }
}

/// When `create_proposal` succeeds: the proposer is active, the action is
/// known and has its parameters, and no proposal exists yet at the address.
pub open spec fn create_check(accounts: CreateProposal, action: Seq<char>, params: ActionParams)
    -> Result<(), WalletError> {
    if !accounts.proposer_guardian.data.is_active {
        Err(WalletError::InactiveGuardian)
    } else if resolved_action(action, params) is Err {
        Err(resolved_action(action, params)->Err_0)
    } else if accounts.proposal.data is Some {
        Err(WalletError::AlreadyExists)
    } else {
        Ok(())
    }
}

/// The proposal that `create_proposal` writes: pending, without approvals,
/// and asking for as many as the wallet's threshold is now.
pub open spec fn new_proposal(
    accounts: CreateProposal,
    proposal_id: u64,
    description: String,
    action: ProposalAction,
) -> TransactionProposal {
    TransactionProposal {
        multisig: accounts.multisig.key,
        proposal_id,
        proposer: accounts.proposer_guardian.key,
        description,
        action,
        status: ProposalStatus::Pending,
        created_at: accounts.clock.unix_timestamp,
        executed_at: None,
        signatures_count: 0,
        required_signatures: accounts.multisig.data.threshold,
        bump: accounts.proposal.bump,
    }
}

/// Creates a proposal for `action` with `params` on the wallet.
pub fn create_proposal(
    ctx: &mut Context<CreateProposal>,
    proposal_id: u64,
    description: String,
    _proposer_guardian_id: u64,
    action: String,
    params: ActionParams,
) -> (result: Result<(), WalletError>)
    ensures
        result == create_check(old(ctx).accounts, action@, params),
        result is Err ==> *final(ctx) == *old(ctx),
        result is Ok ==> *final(ctx) == (Context {
            accounts: CreateProposal {
                proposal: Slot {
                    data: Some(
                        new_proposal(
                            old(ctx).accounts,
                            proposal_id,
                            description,
                            resolved_action(action@, params)->Ok_0,
                        ),
                    ),
                    ..old(ctx).accounts.proposal
                },
                ..old(ctx).accounts
            },
            ..*old(ctx)
        }),
{
    if !ctx.accounts.proposer_guardian.data.is_active {
        return Err(WalletError::InactiveGuardian);
    }
    let resolved = resolve_action(&action, &params)?;
    if ctx.accounts.proposal.data.is_some() {
        return Err(WalletError::AlreadyExists);
    }
    ctx.accounts.proposal.data = Some(
        TransactionProposal {
            multisig: ctx.accounts.multisig.key,
            proposal_id,
            proposer: ctx.accounts.proposer_guardian.key,
            description,
            action: resolved,
            status: ProposalStatus::Pending,
            created_at: ctx.accounts.clock.unix_timestamp,
            executed_at: None,
            signatures_count: 0,
            required_signatures: ctx.accounts.multisig.data.threshold,
            bump: ctx.accounts.proposal.bump,
        },
    );
    Ok(())
}

/// When an approval succeeds, for a given verdict on the guardian's proof:
/// the guardian may act, the verdict is favourable, the guardian has not
/// approved this proposal before, and the count of approvals has room for one
/// more. The first check that fails names the error.
pub open spec fn approval_check(
    ctx: Context<ApproveProposal>,
    timestamp: i64,
    proof: Result<(), WalletError>,
) -> Result<(), WalletError> {
    let accounts = ctx.accounts;
    let may_act = guardian_action_check(
        ctx.program_id,
        accounts.multisig,
        accounts.proposal,
        accounts.guardian,
        accounts.clock,
        timestamp,
    );
    if may_act is Err {
        may_act
    } else if proof is Err {
        proof
    } else if accounts.signature.data is Some {
        Err(WalletError::AlreadyExists)
    } else if accounts.proposal.data.signatures_count == u8::MAX {
        Err(WalletError::ArithmeticOverflow)
    } else {
        Ok(())
    }
}

/// When `approve_proposal` succeeds: as an approval does, on the verdict that
/// the guardian's proof of an approval gets.
pub open spec fn approve_check(
    ctx: Context<ApproveProposal>,
    proposal_id: u64,
    guardian_id: u64,
    timestamp: i64,
    message: Seq<u8>,
) -> Result<(), WalletError> {
    approval_check(
        ctx,
        timestamp,
        guardian_proof_check(
            ctx.accounts.guardian.data,
            ctx.accounts.instruction_sysvar,
            Intent::Approve,
            proposal_id,
            guardian_id,
            timestamp,
            message,
        ),
    )
}

/// The accounts after an approval: the record stands at its address and the
/// proposal counts one approval more.
pub open spec fn approved(accounts: ApproveProposal, guardian_id: u64) -> ApproveProposal {
    ApproveProposal {
        proposal: Account {
            data: TransactionProposal {
                signatures_count: (accounts.proposal.data.signatures_count + 1) as u8,
                ..accounts.proposal.data
            },
            ..accounts.proposal
        },
        signature: Slot {
            data: Some(
                ProposalSignature {
                    proposal: accounts.proposal.key,
                    guardian_id,
                    signature_time: accounts.clock.unix_timestamp,
                    bump: accounts.signature.bump,
                },
            ),
            ..accounts.signature
        },
        ..accounts
    }
}

/// Records a guardian's approval of a pending proposal, given the verdict on
/// the guardian's proof.
pub fn record_approval(
    ctx: &mut Context<ApproveProposal>,
    guardian_id: u64,
    timestamp: i64,
    proof: Result<(), WalletError>,
) -> (result: Result<(), WalletError>)
    ensures
        result == approval_check(*old(ctx), timestamp, proof),
        result is Err ==> *final(ctx) == *old(ctx),
        result is Ok ==> *final(ctx) == (Context {
            accounts: approved(old(ctx).accounts, guardian_id),
            ..*old(ctx)
        }),
{
    check_guardian_action(
        &ctx.program_id,
        &ctx.accounts.multisig,
        &ctx.accounts.proposal,
        &ctx.accounts.guardian,
        &ctx.accounts.clock,
        timestamp,
    )?;
    proof?;
    if ctx.accounts.signature.data.is_some() {
        return Err(WalletError::AlreadyExists);
    }
    if ctx.accounts.proposal.data.signatures_count == u8::MAX {
        return Err(WalletError::ArithmeticOverflow);
    }
    ctx.accounts.signature.data = Some(
        ProposalSignature {
            proposal: ctx.accounts.proposal.key,
            guardian_id,
            signature_time: ctx.accounts.clock.unix_timestamp,
            bump: ctx.accounts.signature.bump,
        },
    );
    ctx.accounts.proposal.data.signatures_count = ctx.accounts.proposal.data.signatures_count + 1;
    Ok(())
}

/// Records a guardian's approval of a pending proposal.
pub fn approve_proposal(
    ctx: &mut Context<ApproveProposal>,
    proposal_id: u64,
    guardian_id: u64,
    timestamp: i64,
    message: Vec<u8>,
) -> (result: Result<(), WalletError>)
    ensures
        result == approve_check(*old(ctx), proposal_id, guardian_id, timestamp, message@),
        result is Err ==> *final(ctx) == *old(ctx),
        result is Ok ==> *final(ctx) == (Context {
            accounts: approved(old(ctx).accounts, guardian_id),
            ..*old(ctx)
        }),
{
    let proof = check_guardian_proof(
        &ctx.accounts.guardian.data,
        &ctx.accounts.instruction_sysvar,
        Intent::Approve,
        proposal_id,
        guardian_id,
        timestamp,
        message.as_slice(),
    );
    record_approval(ctx, guardian_id, timestamp, proof)
}

/// When a rejection succeeds, for a given verdict on the guardian's proof:
/// the guardian may act and the verdict is favourable.
pub open spec fn rejection_check(
    ctx: Context<RejectProposal>,
    timestamp: i64,
    proof: Result<(), WalletError>,
) -> Result<(), WalletError> {
    let accounts = ctx.accounts;
    let may_act = guardian_action_check(
        ctx.program_id,
        accounts.multisig,
        accounts.proposal,
        accounts.guardian,
        accounts.clock,
        timestamp,
    );
    if may_act is Err {
        may_act
    } else {
        proof
    }
}

/// When `reject_proposal` succeeds: as a rejection does, on the verdict that
/// the guardian's proof of a rejection gets.
pub open spec fn reject_check(
    ctx: Context<RejectProposal>,
    proposal_id: u64,
    guardian_id: u64,
    timestamp: i64,
    message: Seq<u8>,
) -> Result<(), WalletError> {
    rejection_check(
        ctx,
        timestamp,
        guardian_proof_check(
            ctx.accounts.guardian.data,
            ctx.accounts.instruction_sysvar,
            Intent::Reject,
            proposal_id,
            guardian_id,
            timestamp,
            message,
        ),
    )
}

/// The accounts after a rejection: the proposal is rejected, for good.
pub open spec fn rejected(accounts: RejectProposal) -> RejectProposal {
    RejectProposal {
        proposal: Account {
            data: TransactionProposal {
                status: ProposalStatus::Rejected,
                ..accounts.proposal.data
            },
            ..accounts.proposal
        },
        ..accounts
    }
}

/// Rejects a pending proposal on the word of one guardian, given the verdict
/// on the guardian's proof.
pub fn record_rejection(
    ctx: &mut Context<RejectProposal>,
    timestamp: i64,
    proof: Result<(), WalletError>,
) -> (result: Result<(), WalletError>)
    ensures
        result == rejection_check(*old(ctx), timestamp, proof),
        result is Err ==> *final(ctx) == *old(ctx),
        result is Ok ==> *final(ctx) == (Context {
            accounts: rejected(old(ctx).accounts),
            ..*old(ctx)
        }),
{
    check_guardian_action(
        &ctx.program_id,
        &ctx.accounts.multisig,
        &ctx.accounts.proposal,
        &ctx.accounts.guardian,
        &ctx.accounts.clock,
        timestamp,
    )?;
    proof?;
    ctx.accounts.proposal.data.status = ProposalStatus::Rejected;
    Ok(())
}

/// Rejects a pending proposal on the word of one guardian.
pub fn reject_proposal(
    ctx: &mut Context<RejectProposal>,
    proposal_id: u64,
    guardian_id: u64,
    timestamp: i64,
    message: Vec<u8>,
) -> (result: Result<(), WalletError>)
    ensures
        result == reject_check(*old(ctx), proposal_id, guardian_id, timestamp, message@),
        result is Err ==> *final(ctx) == *old(ctx),
        result is Ok ==> *final(ctx) == (Context {
            accounts: rejected(old(ctx).accounts),
            ..*old(ctx)
        }),
{
    let proof = check_guardian_proof(
        &ctx.accounts.guardian.data,
        &ctx.accounts.instruction_sysvar,
        Intent::Reject,
        proposal_id,
        guardian_id,
        timestamp,
        message.as_slice(),
    );
    record_rejection(ctx, timestamp, proof)
}

/// What every execution needs first: the proposal is pending, it has as many
/// approvals as it asked for when it was made, and it belongs to the wallet.
pub open spec fn quorum_check(
    multisig: Account<MultiSigWallet>,
    proposal: Account<TransactionProposal>,
) -> Result<(), WalletError> {
    if proposal.data.status != ProposalStatus::Pending {
        Err(WalletError::InvalidOperation)
    } else if proposal.data.signatures_count < proposal.data.required_signatures {
        Err(WalletError::InvalidOperation)
    } else if multisig.key != proposal.data.multisig {
        Err(WalletError::MultisigMismatch)
    } else {
        Ok(())
    }
}

fn check_quorum(
    multisig: &Account<MultiSigWallet>,
    proposal: &Account<TransactionProposal>,
) -> (verdict: Result<(), WalletError>)
    ensures
        verdict == quorum_check(*multisig, *proposal),
{
    if proposal.data.status != ProposalStatus::Pending {
        return Err(WalletError::InvalidOperation);
    }
    if proposal.data.signatures_count < proposal.data.required_signatures {
        return Err(WalletError::InvalidOperation);
    }
    if !same_identity(&multisig.key, &proposal.data.multisig) {
        return Err(WalletError::MultisigMismatch);
    }
    Ok(())
}

/// The wallet after an execution at time `now`: one transaction more, the
/// last of them at `now`.
pub open spec fn wallet_after_execution(wallet: MultiSigWallet, now: i64) -> MultiSigWallet {
    MultiSigWallet {
        transaction_nonce: (wallet.transaction_nonce + 1) as u64,
        last_transaction_timestamp: now,
        ..wallet
    }
}

/// The proposal after its execution at time `now`.
pub open spec fn executed_proposal(proposal: TransactionProposal, now: i64) -> TransactionProposal {
    TransactionProposal { status: ProposalStatus::Executed, executed_at: Some(now), ..proposal }
}

/// Whether the destination account is the wallet's own account.
pub open spec fn pays_itself(accounts: ExecuteProposal) -> bool {
    accounts.destination.key == accounts.multisig.key
}

/// The balance the amount is taken from, at the moment it is taken: the
/// destination is credited first, so a wallet that pays itself is debited
/// from the balance it was just credited to.
pub open spec fn balance_to_debit(accounts: ExecuteProposal, amount: u64) -> int {
    if pays_itself(accounts) {
        accounts.destination.lamports + amount
    } else {
        accounts.multisig.lamports as int
    }
}

/// When `execute_proposal` succeeds: the proposal has its quorum,
/// the wallet account is this program's, the proposal moves the native asset
/// to the destination that was handed in, neither balance leaves its range,
/// and the wallet can count one transaction more.
pub open spec fn execute_check(ctx: Context<ExecuteProposal>) -> Result<(), WalletError> {
    let accounts = ctx.accounts;
    if quorum_check(accounts.multisig, accounts.proposal) is Err {
        quorum_check(accounts.multisig, accounts.proposal)
    } else if accounts.multisig.owner != ctx.program_id {
        Err(WalletError::InvalidOwner)
    } else {
        match accounts.proposal.data.action {
            ProposalAction::Transfer { amount, destination } => {
                if destination != accounts.destination.key {
                    Err(WalletError::InvalidOperation)
                } else if accounts.destination.lamports + amount > u64::MAX {
                    Err(WalletError::ArithmeticOverflow)
                } else if balance_to_debit(accounts, amount) < amount {
                    Err(WalletError::InsufficientFunds)
                } else if accounts.multisig.data.transaction_nonce == u64::MAX {
                    Err(WalletError::ArithmeticOverflow)
                } else {
                    Ok(())
                }
            },
            ProposalAction::TransferToken { .. } => Err(WalletError::UnsupportedAction),
        }
    }
}

/// The accounts after a transfer of `amount` was executed: the amount has
/// left the wallet's balance and reached the destination's, the proposal is
/// executed and the wallet has counted the transaction. A wallet that pays
/// itself keeps its balance.
pub open spec fn executed(accounts: ExecuteProposal, amount: u64) -> ExecuteProposal {
    let now = accounts.clock.unix_timestamp;
    let wallet_balance = (balance_to_debit(accounts, amount) - amount) as u64;
    ExecuteProposal {
        multisig: Account {
            lamports: wallet_balance,
            data: wallet_after_execution(accounts.multisig.data, now),
            ..accounts.multisig
        },
        proposal: Account {
            data: executed_proposal(accounts.proposal.data, now),
            ..accounts.proposal
        },
        destination: AccountInfo {
            lamports: if pays_itself(accounts) {
                wallet_balance
            } else {
                (accounts.destination.lamports + amount) as u64
            },
            ..accounts.destination
        },
        ..accounts
    }
}

/// Executes a proposal that moves the native asset.
pub fn execute_proposal(ctx: &mut Context<ExecuteProposal>, _proposal_id: u64) -> (result: Result<
    (),
    WalletError,
>)
    ensures
        result == execute_check(*old(ctx)),
        result is Err ==> *final(ctx) == *old(ctx),
        result is Ok ==> *final(ctx) == (Context {
            accounts: executed(
                old(ctx).accounts,
                old(ctx).accounts.proposal.data.action->Transfer_amount,
            ),
            ..*old(ctx)
        }),
{
    check_quorum(&ctx.accounts.multisig, &ctx.accounts.proposal)?;
    if !same_identity(&ctx.accounts.multisig.owner, &ctx.program_id) {
        return Err(WalletError::InvalidOwner);
    }
    let (amount, recorded) = match ctx.accounts.proposal.data.action {
        ProposalAction::Transfer { amount, destination } => (amount, destination),
        ProposalAction::TransferToken { .. } => {
            return Err(WalletError::UnsupportedAction);
        },
    };
    if !same_identity(&recorded, &ctx.accounts.destination.key) {
        return Err(WalletError::InvalidOperation);
    }
    let credited: u64 = match ctx.accounts.destination.lamports.checked_add(amount) {
        Some(balance) => balance,
        None => {
            return Err(WalletError::ArithmeticOverflow);
        },
    };
    let pays_itself = same_identity(&ctx.accounts.destination.key, &ctx.accounts.multisig.key);
    let source: u64 = if pays_itself {
        credited
    } else {
        ctx.accounts.multisig.lamports
    };
    let debited: u64 = match source.checked_sub(amount) {
        Some(balance) => balance,
        None => {
            return Err(WalletError::InsufficientFunds);
        },
    };
    let nonce: u64 = match ctx.accounts.multisig.data.transaction_nonce.checked_add(1) {
        Some(nonce) => nonce,
        None => {
            return Err(WalletError::ArithmeticOverflow);
        },
    };
    let now: i64 = ctx.accounts.clock.unix_timestamp;
    ctx.accounts.destination.lamports = if pays_itself {
        debited
    } else {
        credited
    };
    ctx.accounts.multisig.lamports = debited;
    ctx.accounts.proposal.data.status = ProposalStatus::Executed;
    ctx.accounts.proposal.data.executed_at = Some(now);
    ctx.accounts.multisig.data.transaction_nonce = nonce;
    ctx.accounts.multisig.data.last_transaction_timestamp = now;
    Ok(())
}

/// When `execute_token_proposal` succeeds: the proposal has its quorum and
/// moves a token, the wallet account is this program's, both token
/// accounts hold the token the proposal names, and the wallet can count one
/// transaction more.
pub open spec fn execute_token_check(ctx: Context<ExecuteTokenProposal>) -> Result<
    (),
    WalletError,
> {
    let accounts = ctx.accounts;
    if quorum_check(accounts.multisig, accounts.proposal) is Err {
        quorum_check(accounts.multisig, accounts.proposal)
    } else {
        match accounts.proposal.data.action {
            ProposalAction::Transfer { .. } => Err(WalletError::InvalidOperation),
            ProposalAction::TransferToken { token_mint, .. } => {
                if accounts.multisig.owner != ctx.program_id {
                    Err(WalletError::InvalidOwner)
                } else if accounts.from_token_account.mint != token_mint {
                    Err(WalletError::InvalidOperation)
                } else if accounts.to_token_account.mint != token_mint {
                    Err(WalletError::InvalidOperation)
                } else if accounts.multisig.data.transaction_nonce == u64::MAX {
                    Err(WalletError::ArithmeticOverflow)
                } else {
                    Ok(())
                }
            },
        }
    }
}

/// The order that executing a token proposal gives to the token service.
pub open spec fn token_order(accounts: ExecuteTokenProposal) -> TokenTransfer {
    TokenTransfer {
        from: accounts.from_token_account.key,
        to: accounts.to_token_account.key,
        authority: accounts.multisig.key,
        amount: accounts.proposal.data.action->TransferToken_token_amount,
    }
}

/// The accounts after a token proposal was executed: the proposal is executed
/// and the wallet has counted the transaction.
pub open spec fn token_executed(accounts: ExecuteTokenProposal) -> ExecuteTokenProposal {
    let now = accounts.clock.unix_timestamp;
    ExecuteTokenProposal {
        multisig: Account {
            data: wallet_after_execution(accounts.multisig.data, now),
            ..accounts.multisig
        },
        proposal: Account {
            data: executed_proposal(accounts.proposal.data, now),
            ..accounts.proposal
        },
        ..accounts
    }
}

/// Executes a proposal that moves a token. The tokens themselves are moved by
/// the token service: on success the caller has the service carry out the
/// order that is returned, and commits the accounts only if it did.
pub fn execute_token_proposal(ctx: &mut Context<ExecuteTokenProposal>, _proposal_id: u64) -> (result:
    Result<TokenTransfer, WalletError>)
    ensures
        match result {
            Ok(order) => execute_token_check(*old(ctx)) is Ok && order == token_order(
                old(ctx).accounts,
            ) && *final(ctx) == (Context {
                accounts: token_executed(old(ctx).accounts),
                ..*old(ctx)
            }),
            Err(e) => execute_token_check(*old(ctx)) == Err::<(), WalletError>(e) && *final(ctx)
                == *old(ctx),
        },
{
    check_quorum(&ctx.accounts.multisig, &ctx.accounts.proposal)?;
    let (token_mint, token_amount) = match ctx.accounts.proposal.data.action {
        ProposalAction::Transfer { .. } => {
            return Err(WalletError::InvalidOperation);
        },
        ProposalAction::TransferToken { token_mint, token_amount, .. } => (
            token_mint,
            token_amount,
        ),
    };
    if !same_identity(&ctx.accounts.multisig.owner, &ctx.program_id) {
        return Err(WalletError::InvalidOwner);
    }
    if !same_identity(&ctx.accounts.from_token_account.mint, &token_mint) {
        return Err(WalletError::InvalidOperation);
    }
    if !same_identity(&ctx.accounts.to_token_account.mint, &token_mint) {
        return Err(WalletError::InvalidOperation);
    }
    let nonce: u64 = match ctx.accounts.multisig.data.transaction_nonce.checked_add(1) {
        Some(nonce) => nonce,
        None => {
            return Err(WalletError::ArithmeticOverflow);
        },
    };
    let now: i64 = ctx.accounts.clock.unix_timestamp;
    let order = TokenTransfer {
        from: ctx.accounts.from_token_account.key,
        to: ctx.accounts.to_token_account.key,
        authority: ctx.accounts.multisig.key,
        amount: token_amount,
    };
    ctx.accounts.proposal.data.status = ProposalStatus::Executed;
    ctx.accounts.proposal.data.executed_at = Some(now);
    ctx.accounts.multisig.data.transaction_nonce = nonce;
    ctx.accounts.multisig.data.last_transaction_timestamp = now;
    Ok(order)
}

} // verus!
