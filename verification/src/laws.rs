//! What holds of the instructions taken together.
//!
//! Each law is stated over the functions that the instructions' contracts
//! use, so it holds of every run of the instructions themselves.

use crate::credential::{credential_verdict, VerificationRecord};
use crate::errors::WalletError;
use crate::instructions::proposal::{
    approval_check,
    approve_check,
    approved,
    execute_check,
    execute_token_check,
    executed,
    new_proposal,
    pays_itself,
    reject_check,
    rejected,
    timestamp_check,
    token_executed,
    ApproveProposal,
    CreateProposal,
    ExecuteProposal,
    ExecuteTokenProposal,
    RejectProposal,
};
use crate::message::{canonical_message, message_text, Intent};
use crate::payload::{payload_public_key, public_key_offset};
use crate::state::account::{Account, Clock, Context, Slot};
use crate::state::guardian::Guardian;
use crate::state::proposal::{
    ProposalAction,
    ProposalSignature,
    ProposalStatus,
    TransactionProposal,
};
use crate::state::wallet::{Identity, MultiSigWallet};
use vstd::prelude::*;
use vstd::string::StringSliceAdditionalSpecFns;
use vstd::utf8::{is_ascii_chars, is_ascii_chars_encode_utf8};

verus! {

/// A proposal asks for as many approvals as the wallet's threshold was when
/// it was made, and no approval or rejection changes what it asks for.
pub proof fn threshold_is_fixed_at_creation(
    create: CreateProposal,
    proposal_id: u64,
    description: String,
    action: ProposalAction,
    approve: ApproveProposal,
    guardian_id: u64,
    reject: RejectProposal,
)
    ensures
        new_proposal(create, proposal_id, description, action).required_signatures
            == create.multisig.data.threshold,
        new_proposal(create, proposal_id, description, action).signatures_count == 0,
        new_proposal(create, proposal_id, description, action).status == ProposalStatus::Pending,
        approved(approve, guardian_id).proposal.data.required_signatures
            == approve.proposal.data.required_signatures,
        rejected(reject).proposal.data.required_signatures
            == reject.proposal.data.required_signatures,
{
}

/// No proposal is executed with fewer approvals than it asks for: either
/// execution fails with `InvalidOperation` and, by the instructions'
/// contracts, changes nothing.
pub proof fn threshold_soundness(
    native: Context<ExecuteProposal>,
    token: Context<ExecuteTokenProposal>,
)
    ensures
        native.accounts.proposal.data.signatures_count
            < native.accounts.proposal.data.required_signatures ==> execute_check(native) == Err::<
            (),
            WalletError,
        >(WalletError::InvalidOperation),
        token.accounts.proposal.data.signatures_count
            < token.accounts.proposal.data.required_signatures ==> execute_token_check(token)
            == Err::<(), WalletError>(WalletError::InvalidOperation),
{
}

/// Once a guardian's approval of a proposal has succeeded, every later
/// attempt that finds the record it left fails, whatever else has changed
/// and whatever is handed in.
pub proof fn second_approval_fails(
    first: Context<ApproveProposal>,
    first_proposal_id: u64,
    first_guardian_id: u64,
    first_timestamp: i64,
    first_message: Seq<u8>,
    second: Context<ApproveProposal>,
    proposal_id: u64,
    guardian_id: u64,
    timestamp: i64,
    message: Seq<u8>,
)
    requires
        approve_check(first, first_proposal_id, first_guardian_id, first_timestamp, first_message)
            is Ok,
        second.accounts.signature == approved(first.accounts, first_guardian_id).signature,
    ensures
        approve_check(second, proposal_id, guardian_id, timestamp, message) is Err,
{
}

/// An approval that succeeds finds no record at its address, leaves one there
/// and raises the count of approvals by exactly one; nothing else raises it.
pub proof fn approval_counts_once(
    ctx: Context<ApproveProposal>,
    proposal_id: u64,
    guardian_id: u64,
    timestamp: i64,
    message: Seq<u8>,
    reject: RejectProposal,
)
    requires
        approve_check(ctx, proposal_id, guardian_id, timestamp, message) is Ok,
    ensures
        ctx.accounts.signature.data is None,
        approved(ctx.accounts, guardian_id).signature.data is Some,
        approved(ctx.accounts, guardian_id).signature.data->0.guardian_id == guardian_id,
        approved(ctx.accounts, guardian_id).signature.data->0.proposal == ctx.accounts.proposal.key,
        approved(ctx.accounts, guardian_id).proposal.data.signatures_count
            == ctx.accounts.proposal.data.signatures_count + 1,
        rejected(reject).proposal.data.signatures_count == reject.proposal.data.signatures_count,
{
}

/// A proposal together with the approval records the store holds for it,
/// each under the number of the guardian that approved.
pub struct ApprovalBook {
    pub proposal: Account<TransactionProposal>,
    pub records: Map<u64, ProposalSignature>,
}

/// One attempt to approve the proposal of a book, as it reaches
/// `approve_proposal`: everything the instruction is handed but the proposal
/// and what stands at the record's address, which come from the book.
pub struct ApprovalAttempt {
    pub program_id: Identity,
    pub multisig: Account<MultiSigWallet>,
    pub guardian: Account<Guardian>,
    pub record_key: Identity,
    pub record_bump: u8,
    pub instruction_sysvar: Option<VerificationRecord>,
    pub clock: Clock,
    pub proposal_id: u64,
    pub guardian_id: u64,
    pub timestamp: i64,
    pub message: Seq<u8>,
}

impl ApprovalBook {
    /// The book counts right: the proposal counts as many approvals as there
    /// are guardians with a record.
    pub open spec fn counts_each_guardian_once(self) -> bool {
        &&& self.records.dom().finite()
        &&& self.proposal.data.signatures_count == self.records.dom().len()
    }

    /// What the store hands to the instruction for an attempt: at the
    /// record's address stands the guardian's record, if the book has one.
    pub open spec fn context_of(self, attempt: ApprovalAttempt) -> Context<ApproveProposal> {
        Context {
            program_id: attempt.program_id,
            accounts: ApproveProposal {
                multisig: attempt.multisig,
                proposal: self.proposal,
                signature: Slot {
                    key: attempt.record_key,
                    bump: attempt.record_bump,
                    data: if self.records.dom().contains(attempt.guardian_id) {
                        Some(self.records[attempt.guardian_id])
                    } else {
                        None
                    },
                },
                guardian: attempt.guardian,
                instruction_sysvar: attempt.instruction_sysvar,
                clock: attempt.clock,
            },
        }
    }

    /// Whether the attempt succeeds on this book.
    pub open spec fn accepts(self, attempt: ApprovalAttempt) -> bool {
        approve_check(
            self.context_of(attempt),
            attempt.proposal_id,
            attempt.guardian_id,
            attempt.timestamp,
            attempt.message,
        ) is Ok
    }

    /// The book after an attempt: as the instruction leaves the proposal and
    /// the record when it succeeds, unchanged when it fails.
    pub open spec fn after(self, attempt: ApprovalAttempt) -> ApprovalBook {
        if self.accepts(attempt) {
            let accounts = approved(self.context_of(attempt).accounts, attempt.guardian_id);
            ApprovalBook {
                proposal: accounts.proposal,
                records: self.records.insert(attempt.guardian_id, accounts.signature.data->0),
            }
        } else {
            self
        }
    }

    /// The book after a run of attempts, one after the other.
    pub open spec fn after_all(self, attempts: Seq<ApprovalAttempt>) -> ApprovalBook
        decreases attempts.len(),
    {
        if attempts.len() == 0 {
            self
        } else {
            self.after_all(attempts.drop_last()).after(attempts.last())
        }
    }
}

/// An attempt by a guardian that has a record in the book fails, and one that
/// succeeds adds the guardian's record and counts one approval more.
pub proof fn attempt_keeps_the_count(book: ApprovalBook, attempt: ApprovalAttempt)
    requires
        book.counts_each_guardian_once(),
    ensures
        book.records.dom().contains(attempt.guardian_id) ==> !book.accepts(attempt),
        book.after(attempt).counts_each_guardian_once(),
        book.accepts(attempt) ==> book.after(attempt).records.dom() == book.records.dom().insert(
            attempt.guardian_id,
        ) && book.after(attempt).proposal.data.signatures_count
            == book.proposal.data.signatures_count + 1,
        !book.accepts(attempt) ==> book.after(attempt) == book,
{
    if book.accepts(attempt) {
        assert(book.after(attempt).records.dom() =~= book.records.dom().insert(
            attempt.guardian_id,
        ));
    }
}

/// Whatever approvals are attempted, in whatever order and however often, a
/// proposal never counts more approvals than there are distinct guardians
/// whose approval succeeded: it counts exactly as many.
pub proof fn no_double_approval(book: ApprovalBook, attempts: Seq<ApprovalAttempt>)
    requires
        book.counts_each_guardian_once(),
    ensures
        book.after_all(attempts).counts_each_guardian_once(),
    decreases attempts.len(),
{
    if attempts.len() > 0 {
        no_double_approval(book, attempts.drop_last());
        attempt_keeps_the_count(book.after_all(attempts.drop_last()), attempts.last());
    }
}

/// A proposal that was just created, with no record in the store, counts
/// right.
pub proof fn new_proposal_counts_right(
    create: CreateProposal,
    proposal_id: u64,
    description: String,
    action: ProposalAction,
    owner: Identity,
    lamports: u64,
)
    ensures
        (ApprovalBook {
            proposal: Account {
                key: create.proposal.key,
                owner,
                lamports,
                data: new_proposal(create, proposal_id, description, action),
            },
            records: Map::empty(),
        }).counts_each_guardian_once(),
{
}

/// A guardian with a registered key whose proof passes every earlier check
/// is refused with `MessageMismatch` for any message but the canonical one,
/// be it different in a single byte.
pub proof fn message_exactness(
    record: Option<VerificationRecord>,
    intent: Intent,
    proposal_id: u64,
    guardian_id: u64,
    timestamp: i64,
    pubkey: Seq<u8>,
    message: Seq<u8>,
)
    requires
        credential_verdict(
            record,
            intent,
            proposal_id,
            guardian_id,
            timestamp,
            pubkey,
            canonical_message(intent, proposal_id, guardian_id, timestamp, pubkey),
        ) is Ok,
        message != canonical_message(intent, proposal_id, guardian_id, timestamp, pubkey),
    ensures
        credential_verdict(record, intent, proposal_id, guardian_id, timestamp, pubkey, message)
            == Err::<(), WalletError>(WalletError::MessageMismatch),
{
}

/// An approval by a guardian with a registered key, which would succeed with
/// the canonical message, fails with `MessageMismatch` with any other.
pub proof fn approval_needs_the_canonical_message(
    ctx: Context<ApproveProposal>,
    proposal_id: u64,
    guardian_id: u64,
    timestamp: i64,
    message: Seq<u8>,
)
    requires
        ctx.accounts.guardian.data.webauthn_pubkey is Some,
        approve_check(
            ctx,
            proposal_id,
            guardian_id,
            timestamp,
            canonical_message(
                Intent::Approve,
                proposal_id,
                guardian_id,
                timestamp,
                ctx.accounts.guardian.data.webauthn_pubkey->0@,
            ),
        ) is Ok,
        message != canonical_message(
            Intent::Approve,
            proposal_id,
            guardian_id,
            timestamp,
            ctx.accounts.guardian.data.webauthn_pubkey->0@,
        ),
    ensures
        approve_check(ctx, proposal_id, guardian_id, timestamp, message) == Err::<
            (),
            WalletError,
        >(WalletError::MessageMismatch),
{
}

/// A message that approves is never a message that rejects, whatever
/// proposal, guardian, time and key the two are about: they differ in their
/// first byte.
pub proof fn intents_sign_different_messages(
    proposal_id: u64,
    guardian_id: u64,
    timestamp: i64,
    digest: Seq<u8>,
    other_proposal_id: u64,
    other_guardian_id: u64,
    other_timestamp: i64,
    other_digest: Seq<u8>,
)
    ensures
        message_text(Intent::Approve, proposal_id, guardian_id, timestamp, digest)
            != message_text(
            Intent::Reject,
            other_proposal_id,
            other_guardian_id,
            other_timestamp,
            other_digest,
        ),
{
    reveal_strlit("approve");
    reveal_strlit("reject");
    assert(is_ascii_chars("approve"@));
    assert(is_ascii_chars("reject"@));
    is_ascii_chars_encode_utf8("approve"@);
    is_ascii_chars_encode_utf8("reject"@);
    assert("approve"@[0] == 'a');
    assert("reject"@[0] == 'r');
    assert(Intent::Approve.tag()[0] == 97u8);
    assert(Intent::Reject.tag()[0] == 114u8);
    let approval = message_text(Intent::Approve, proposal_id, guardian_id, timestamp, digest);
    let rejection = message_text(
        Intent::Reject,
        other_proposal_id,
        other_guardian_id,
        other_timestamp,
        other_digest,
    );
    assert(approval[0] == Intent::Approve.tag()[0]);
    assert(rejection[0] == Intent::Reject.tag()[0]);
}

/// The freshness window has both its ends: a timestamp is accepted exactly
/// from 300 seconds before the clock to 60 seconds after it.
pub proof fn freshness_window(timestamp: i64, now: i64)
    ensures
        timestamp_check(timestamp, now) is Ok <==> now - 300 <= timestamp <= now + 60,
        timestamp_check(timestamp, now) == Err::<(), WalletError>(WalletError::FutureTimestamp)
            <==> timestamp > now + 60,
        timestamp_check(timestamp, now) == Err::<(), WalletError>(WalletError::ExpiredTimestamp)
            <==> timestamp < now - 300,
{
}

/// A proposal that is executed or rejected stays so: every approval,
/// rejection and execution of it fails with `InvalidOperation`.
pub proof fn terminal_status(
    approve: Context<ApproveProposal>,
    reject: Context<RejectProposal>,
    native: Context<ExecuteProposal>,
    token: Context<ExecuteTokenProposal>,
    proposal_id: u64,
    guardian_id: u64,
    timestamp: i64,
    message: Seq<u8>,
)
    ensures
        approve.accounts.proposal.data.status != ProposalStatus::Pending ==> approve_check(
            approve,
            proposal_id,
            guardian_id,
            timestamp,
            message,
        ) == Err::<(), WalletError>(WalletError::InvalidOperation),
        reject.accounts.proposal.data.status != ProposalStatus::Pending ==> reject_check(
            reject,
            proposal_id,
            guardian_id,
            timestamp,
            message,
        ) == Err::<(), WalletError>(WalletError::InvalidOperation),
        native.accounts.proposal.data.status != ProposalStatus::Pending ==> execute_check(native)
            == Err::<(), WalletError>(WalletError::InvalidOperation),
        token.accounts.proposal.data.status != ProposalStatus::Pending ==> execute_token_check(
            token,
        ) == Err::<(), WalletError>(WalletError::InvalidOperation),
{
}

/// What succeeds ends in the state it names: a rejection leaves the proposal
/// rejected, an execution leaves it executed.
pub proof fn status_moves_one_way(
    reject: RejectProposal,
    native: ExecuteProposal,
    amount: u64,
    token: ExecuteTokenProposal,
    approve: ApproveProposal,
    guardian_id: u64,
)
    ensures
        rejected(reject).proposal.data.status == ProposalStatus::Rejected,
        executed(native, amount).proposal.data.status == ProposalStatus::Executed,
        token_executed(token).proposal.data.status == ProposalStatus::Executed,
        approved(approve, guardian_id).proposal.data.status == approve.proposal.data.status,
{
}

/// No instruction lowers the count of approvals of a proposal, and none but
/// an approval changes it.
pub proof fn approvals_never_decrease(
    approve: Context<ApproveProposal>,
    guardian_id: u64,
    timestamp: i64,
    proof: Result<(), WalletError>,
    reject: RejectProposal,
    native: ExecuteProposal,
    amount: u64,
    token: ExecuteTokenProposal,
)
    ensures
        approval_check(approve, timestamp, proof) is Ok ==> approved(
            approve.accounts,
            guardian_id,
        ).proposal.data.signatures_count > approve.accounts.proposal.data.signatures_count,
        rejected(reject).proposal.data.signatures_count == reject.proposal.data.signatures_count,
        executed(native, amount).proposal.data.signatures_count
            == native.proposal.data.signatures_count,
        token_executed(token).proposal.data.signatures_count
            == token.proposal.data.signatures_count,
{
}

/// An execution leaves the wallet's threshold and its guardians as they
/// were, so a well-formed wallet stays well-formed.
pub proof fn wallet_stays_well_formed(native: ExecuteProposal, amount: u64, token: ExecuteTokenProposal)
    ensures
        native.multisig.data.well_formed() ==> executed(native, amount).multisig.data.well_formed(),
        token.multisig.data.well_formed() ==> token_executed(token).multisig.data.well_formed(),
        executed(native, amount).multisig.data.threshold == native.multisig.data.threshold,
        token_executed(token).multisig.data.threshold == token.multisig.data.threshold,
{
}

/// Executing a transfer of an amount to a destination other than the wallet
/// itself takes exactly the amount from the wallet's balance and adds exactly
/// the amount to the destination's. Of the wallet it changes the balance, the
/// count of transactions and the time of the last one; of the proposal, the
/// status and the time of execution; and a second execution of the proposal
/// fails.
pub proof fn execution_exactness(ctx: Context<ExecuteProposal>)
    requires
        execute_check(ctx) is Ok,
        !pays_itself(ctx.accounts),
    ensures
        ctx.accounts.proposal.data.action is Transfer,
        ctx.accounts.proposal.data.action->Transfer_destination == ctx.accounts.destination.key,
        ({
            let amount = ctx.accounts.proposal.data.action->Transfer_amount;
            let after = executed(ctx.accounts, amount);
            &&& after.multisig.lamports == ctx.accounts.multisig.lamports - amount
            &&& after.destination.lamports == ctx.accounts.destination.lamports + amount
            &&& after.destination.key == ctx.accounts.destination.key
            &&& after.multisig.key == ctx.accounts.multisig.key
            &&& after.multisig.owner == ctx.accounts.multisig.owner
            &&& after.multisig.data == (MultiSigWallet {
                transaction_nonce: (ctx.accounts.multisig.data.transaction_nonce + 1) as u64,
                last_transaction_timestamp: ctx.accounts.clock.unix_timestamp,
                ..ctx.accounts.multisig.data
            })
            &&& after.proposal == (Account {
                data: TransactionProposal {
                    status: ProposalStatus::Executed,
                    executed_at: Some(ctx.accounts.clock.unix_timestamp),
                    ..ctx.accounts.proposal.data
                },
                ..ctx.accounts.proposal
            })
            &&& after.clock == ctx.accounts.clock
            &&& execute_check(Context { accounts: after, ..ctx }) == Err::<(), WalletError>(
                WalletError::InvalidOperation,
            )
        }),
{
}

/// A token proposal is executed once: after its execution, another fails.
pub proof fn token_execution_is_single_shot(ctx: Context<ExecuteTokenProposal>)
    requires
        execute_token_check(ctx) is Ok,
    ensures
        execute_token_check(Context { accounts: token_executed(ctx.accounts), ..ctx }) == Err::<
            (),
            WalletError,
        >(WalletError::InvalidOperation),
{
}

/// A proposal whose approvals were counted right is executed only when as
/// many distinct guardians have approved it as it asked for when it was made.
pub proof fn executed_only_with_enough_guardians(
    book: ApprovalBook,
    native: Context<ExecuteProposal>,
    token: Context<ExecuteTokenProposal>,
)
    requires
        book.counts_each_guardian_once(),
    ensures
        native.accounts.proposal == book.proposal && execute_check(native) is Ok
            ==> book.records.dom().len() >= book.proposal.data.required_signatures,
        token.accounts.proposal == book.proposal && execute_token_check(token) is Ok
            ==> book.records.dom().len() >= book.proposal.data.required_signatures,
{
}

/// A wallet that pays itself keeps its balance.
pub proof fn paying_itself_keeps_the_balance(ctx: Context<ExecuteProposal>)
    requires
        execute_check(ctx) is Ok,
        pays_itself(ctx.accounts),
    ensures
        ({
            let amount = ctx.accounts.proposal.data.action->Transfer_amount;
            let after = executed(ctx.accounts, amount);
            &&& after.multisig.lamports == ctx.accounts.destination.lamports
            &&& after.destination.lamports == ctx.accounts.destination.lamports
        }),
{
}

/// A payload is refused as malformed when it is shorter than its header or
/// when the key it declares would end behind its last byte, and as holding
/// the wrong number of signatures when its first byte is not one.
pub proof fn payload_rejections(data: Seq<u8>)
    ensures
        data.len() < 16 ==> payload_public_key(data) == Err::<Seq<u8>, WalletError>(
            WalletError::MalformedPayload,
        ),
        data.len() >= 16 && data[0] != 1 ==> payload_public_key(data) == Err::<
            Seq<u8>,
            WalletError,
        >(WalletError::UnsupportedSignatureCount),
        data.len() >= 16 && data[0] == 1 && public_key_offset(data) + 33 > data.len()
            ==> payload_public_key(data) == Err::<Seq<u8>, WalletError>(
            WalletError::MalformedPayload,
        ),
        data.len() >= 16 && data[0] == 1 && public_key_offset(data) + 33 <= data.len()
            ==> payload_public_key(data) == Ok::<Seq<u8>, WalletError>(
            data.subrange(public_key_offset(data), public_key_offset(data) + 33),
        ),
{
}

} // verus!
