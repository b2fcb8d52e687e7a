//! The KCC20 fungible-token convention: token states, transfer rules and the
//! transactions of the two borrowed-receive examples.

pub mod authorization;
pub mod borrow;
pub mod bytes;
pub mod chain_borrow;
pub mod consensus;
pub mod conservation;
pub mod crypto;
pub mod laws;
pub mod program;
pub mod receive;
pub mod state;
pub mod support;
pub mod threshold_borrow;
pub mod transaction;
pub mod transfer;
