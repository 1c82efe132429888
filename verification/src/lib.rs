//! Threshold authorization for a guardian-protected wallet.
//!
//! A wallet releases value only after enough of its guardians have approved a
//! proposal. Guardians that registered a security-key credential prove each
//! approval or rejection with a signed message, which the platform verifies in
//! a companion step that this crate inspects. Every instruction is a total
//! function on a plain-value snapshot of the accounts it touches, with a
//! contract that says which error it returns and how the snapshot changes.

pub mod errors;
pub mod encoding;
pub mod platform;
pub mod state;
pub mod payload;
pub mod message;
pub mod credential;
pub mod instructions;
pub mod laws;
