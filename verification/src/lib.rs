//! Custodial escrow engine: the lifecycle state machine of an escrow record,
//! the custody rules of its vault, and the authorization checks that gate
//! every transition.
//!
//! A buyer deposits an amount of one asset into a vault that nobody holds a
//! key for. A seller accepts. The funds leave the vault exactly once and all
//! at once: to the seller when the buyer confirms delivery or when the
//! deadline has passed, or back to the buyer when the buyer cancels before a
//! seller has accepted.
//!
//! - `pubkey`, `state`, `error`, `escrow`, `vault`: the data.
//! - `authorization`: the predicates and preconditions that gate each
//!   operation.
//! - `lifecycle`: the five operations, each on the accounts it touches.
//! - `custody`, `laws`: one escrow with its vault as a unit, and what holds of
//!   it under every sequence of calls.
//! - `registry`: the escrows of a program by identity.
//! - `address`: derived addresses and the text form of identities.
//! - `layout`: the stored form of a record.
//! - `info`: the read-only projection of a record.
//! - `cli`, `accounts`, `instruction`, `client`: what a command line asks for
//!   and the request that it makes of it.

pub mod accounts;
pub mod address;
pub mod authorization;
pub mod cli;
pub mod client;
pub mod custody;
pub mod error;
pub mod escrow;
pub mod info;
pub mod instruction;
pub mod laws;
pub mod layout;
pub mod lifecycle;
pub mod pubkey;
pub mod registry;
pub mod state;
pub mod vault;
