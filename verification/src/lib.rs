//! A verified governance engine for a DAO: time-bounded spending proposals,
//! weighted yes/no voting with double-vote protection, and checked arithmetic
//! over vote tallies and treasury amounts.
//!
//! The engine is split into a proposal store (`store`), which owns the durable
//! proposal table and vote records, and a voting engine (`engine`), which
//! enforces the proposal/vote state machine. Voting weight comes from a
//! balance oracle behind the `token::Erc20` trait; `token::Token` is an
//! in-process ledger implementing it. Host-ledger services (the clock, the
//! caller, the treasury balance) enter as plain arguments.

pub mod account;
pub mod engine;
pub mod error;
pub mod laws;
pub mod proposal;
pub mod store;
pub mod token;
