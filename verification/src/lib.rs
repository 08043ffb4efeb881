//! Access rules for a fungible token: who may mint, who may pause, and who is
//! shut out of transfers.
//!
//! The token itself is kept by three collaborators that this crate does not
//! contain: a ledger of balances, a registry of roles, and whatever carries
//! calls in and answers out. The controller, [`Erc20Example`], keeps only what
//! the rules need, the pause flag and the blacklist, and decides each call:
//!
//! - `mint` is for minters, while the contract runs;
//! - `add_to_blacklist` and `remove_from_blacklist` are for blacklisters;
//! - `pause` is for pausers;
//! - `transfer` and `transfer_from` are for callers that are not blocked,
//!   while the contract runs.
//!
//! A call that changes the controller is carried out or refused as a whole. A
//! call that moves tokens is answered with the [`LedgerCall`] to make, and
//! [`settle`] turns the ledger's reply into the caller's answer.
//!
//! Every operation is specified by a function of [`State`], the controller's
//! mathematical model; [`laws`] holds what follows for sequences of calls.

pub mod address;
pub mod blacklist;
pub mod controller;
pub mod error;
pub mod laws;
pub mod ledger;
pub mod role;

pub use address::Address;
pub use blacklist::Blacklist;
pub use controller::{Erc20Example, State};
pub use error::Error;
pub use ledger::{settle, LedgerCall};
pub use role::{Caller, Role, BLACKLISTER_ROLE, MINTER_ROLE, PAUSER_ROLE};
