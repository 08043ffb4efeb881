//! What passes between the controller and the token ledger: the requests the
//! controller clears, and the ledger's replies.

use vstd::prelude::*;
use alloy_primitives::U256;
use crate::address::Address;
use crate::error::Error;

verus! {

/// `alloy_primitives::Uint`, the fixed-width unsigned integer in which token
/// amounts are counted. The controller hands amounts on and never looks
/// inside one.
#[verifier::external_type_specification]
#[verifier::external_body]
pub struct ExUint<const BITS: usize, const LIMBS: usize>(alloy_primitives::Uint<BITS, LIMBS>);

/// A request to the token ledger that the controller has cleared.
///
/// The controller keeps no balances. Once a call is cleared it names the one
/// ledger operation that is to follow; a refused call names none, so the
/// ledger is not touched.
#[derive(Clone, Copy, Debug, PartialEq, Eq)]
pub enum LedgerCall {
    /// Create `value` new tokens for `account`.
    Mint { account: Address, value: U256 },
    /// Move `value` tokens from the caller `from` to `to`.
    Transfer { from: Address, to: Address, value: U256 },
    /// Move `value` tokens from `from` to `to`, on the allowance that `from`
    /// gave the caller `spender`.
    TransferFrom { spender: Address, from: Address, to: Address, value: U256 },
}

/// What the caller is told once the ledger has answered.
///
/// Success is handed on as the ledger gave it. A failure of the ledger, or of
/// any other collaborator, is reported as `InternalError`, whatever its
/// cause.
pub open spec fn settled<T, E>(reply: Result<T, E>) -> Result<T, Error> {
    match reply {
        Ok(done) => Ok(done),
        Err(_) => Err(Error::InternalError),
    }
}

/// Turns a collaborator's answer into the answer to the caller.
pub fn settle<T, E>(reply: Result<T, E>) -> (answer: Result<T, Error>)
    ensures
        answer == settled(reply),
{
    match reply {
        Ok(done) => Ok(done),
        Err(_) => Err(Error::InternalError),
    }
}

} // verus!
