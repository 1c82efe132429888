//! The failures an instruction can report.

use vstd::prelude::*;

verus! {

/// Why an instruction was refused. An instruction that fails leaves every
/// account it was handed unchanged.
#[derive(Clone, Copy, Debug, PartialEq, Eq, Structural)]
pub enum WalletError {
    /// The guardian that acts is not active.
    InactiveGuardian,
    /// The key in the verification step is not the guardian's registered key.
    PublicKeyMismatch,
    /// The signed message is not the canonical message for this action.
    MessageMismatch,
    /// No companion verification step came with the instruction.
    MissingVerificationStep,
    /// The companion step ran some other program than the expected verifier.
    UnsupportedVerificationTarget,
    /// The timestamp lies more than a minute ahead of the clock.
    FutureTimestamp,
    /// The timestamp lies more than five minutes behind the clock.
    ExpiredTimestamp,
    /// The proposal is in the wrong state for the instruction, or its
    /// parameters do not fit its action.
    InvalidOperation,
    /// The proposal belongs to another wallet.
    MultisigMismatch,
    /// The action is not one this wallet can carry out.
    UnsupportedAction,
    /// The verification payload is too short for what it declares.
    MalformedPayload,
    /// The verification payload does not hold exactly one signature.
    UnsupportedSignatureCount,
    /// A balance or a counter would exceed its range.
    ArithmeticOverflow,
    /// The wallet holds less than the amount to move.
    InsufficientFunds,
    /// The wallet account is not owned by this program.
    InvalidOwner,
    /// The store already holds a record at the address to be created.
    AlreadyExists,
}

} // verus!
