//! The instructions a caller can send.

pub mod proposal;
