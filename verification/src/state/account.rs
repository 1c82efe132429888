//! How the store hands entities to an instruction.

use crate::state::wallet::Identity;
use vstd::prelude::*;

verus! {

/// An account that exists: its address, the program that owns it, its balance
/// of the native asset and what it holds.
#[derive(Clone, Debug, PartialEq, Eq)]
pub struct Account<T> {
    pub key: Identity,
    pub owner: Identity,
    pub lamports: u64,
    pub data: T,
}

/// An account of which an instruction reads only the address and the balance.
#[derive(Clone, Copy, Debug, PartialEq, Eq)]
pub struct AccountInfo {
    pub key: Identity,
    pub lamports: u64,
}

/// An address at which an instruction creates a record. The store derives the
/// address from what the record is about, so that one address stands for one
/// record; `data` is `None` as long as nothing was created there.
#[derive(Clone, Debug, PartialEq, Eq)]
pub struct Slot<T> {
    pub key: Identity,
    pub bump: u8,
    pub data: Option<T>,
}

/// The platform's clock.
#[derive(Clone, Copy, Debug, PartialEq, Eq)]
pub struct Clock {
    pub unix_timestamp: i64,
}

/// What one instruction runs on: the identity of this program and the
/// accounts of the instruction.
#[derive(Clone, Debug, PartialEq, Eq)]
pub struct Context<T> {
    pub program_id: Identity,
    pub accounts: T,
}

} // verus!
