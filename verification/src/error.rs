//! The refusals a caller can meet.

use vstd::prelude::*;
use crate::address::Address;

verus! {

/// Why the controller refused a call.
///
/// Every refusal is final for the call that caused it, and a refused call
/// leaves the controller exactly as it found it.
#[derive(Clone, Copy, Debug, PartialEq, Eq)]
pub enum Error {
    /// The caller does not hold the role that the operation asks for.
    NotAuthorized(Address),
    /// The caller is on the blacklist and may not move tokens.
    SenderBlacklisted(Address),
    /// The account was to be blacklisted, and already is.
    AlreadyBlacklisted(Address),
    /// The account was to be taken off the blacklist, and is not on it.
    NotBlacklisted(Address),
    /// The operation moves tokens, and the contract is paused.
    ContractPaused,
    /// A collaborator turned the operation down for reasons of its own.
    InternalError,
}

} // verus!
