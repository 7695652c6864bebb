//! A two-party escrow: each counterparty commits a fixed quantity of a
//! distinct fungible asset, and deposits it exactly once into a custody
//! vault controlled by the escrow record.
//!
//! The host ledger authenticates signers, provides the clock, derives the
//! record's and vaults' addresses and moves tokens. This library holds the
//! decisions: which escrow terms are accepted, which deposits are admitted,
//! how the record changes, and which token transfer a deposit orders.
pub mod address;
pub mod deposit;
pub mod escrow;
pub mod laws;

pub use address::Address;
pub use deposit::{deposit, Deposit, Role, TokenAccount, Transfer};
pub use escrow::{initialize_escrow, ErrorCode, Escrow, InitializeEscrow, DEADLINE_BUFFER};
