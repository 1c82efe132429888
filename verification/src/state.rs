//! The entities the instructions read and write.

pub mod account;
pub mod guardian;
pub mod proposal;
pub mod wallet;
