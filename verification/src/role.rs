//! Roles, their identifiers, and callers with the roles they hold.

use vstd::prelude::*;
use crate::address::Address;

verus! {

/// Identifier of the pauser role: the Keccak-256 digest of `PAUSER_ROLE`.
pub const PAUSER_ROLE: [u8; 32] = [
    101, 215, 162, 142, 50, 101, 179, 122, 100, 116, 146, 159, 51, 101, 33, 179,
    50, 193, 104, 27, 147, 63, 108, 185, 243, 55, 102, 115, 68, 13, 134, 42,
];

/// Identifier of the minter role: the Keccak-256 digest of `MINTER_ROLE`.
pub const MINTER_ROLE: [u8; 32] = [
    159, 45, 240, 254, 210, 199, 118, 72, 222, 88, 96, 164, 204, 80, 140, 208,
    129, 140, 133, 184, 184, 161, 171, 76, 238, 239, 141, 152, 28, 137, 86, 166,
];

/// Identifier of the blacklister role: the Keccak-256 digest of
/// `BLACKLISTER_ROLE`.
pub const BLACKLISTER_ROLE: [u8; 32] = [
    152, 219, 138, 34, 12, 208, 240, 155, 173, 206, 159, 34, 208, 186, 126, 147,
    237, 179, 212, 4, 68, 140, 195, 86, 13, 57, 26, 176, 150, 173, 22, 233,
];

/// The three capabilities that the controller asks of a caller.
///
/// The roles are flat: none implies another.
#[derive(Clone, Copy, Debug, PartialEq, Eq, Structural)]
pub enum Role {
    Pauser,
    Minter,
    Blacklister,
}

impl Role {
    /// The 32-byte identifier under which the access registry knows the role.
    pub open spec fn spec_id(self) -> [u8; 32] {
        match self {
            Role::Pauser => PAUSER_ROLE,
            Role::Minter => MINTER_ROLE,
            Role::Blacklister => BLACKLISTER_ROLE,
        }
    }

    /// The 32-byte identifier under which the access registry knows the role.
    #[verifier::when_used_as_spec(spec_id)]
    pub fn id(self) -> (id: [u8; 32])
        ensures
            id == self.spec_id(),
    {
        match self {
            Role::Pauser => PAUSER_ROLE,
            Role::Minter => MINTER_ROLE,
            Role::Blacklister => BLACKLISTER_ROLE,
        }
    }

    /// Two roles with the same identifier are the same role.
    pub proof fn lemma_id_injective(a: Role, b: Role)
        requires
            a.spec_id() == b.spec_id(),
        ensures
            a == b,
    {
    }
}

/// The account that makes a call, with the roles that the access registry
/// grants it.
///
/// The registry is kept elsewhere; the controller reads what it says of the
/// caller and never alters it.
#[derive(Clone, Copy, Debug, PartialEq, Eq)]
pub struct Caller {
    pub account: Address,
    pub pauser: bool,
    pub minter: bool,
    pub blacklister: bool,
}

impl Caller {
    /// Whether the caller holds `role`.
    pub open spec fn holds(self, role: Role) -> bool {
        match role {
            Role::Pauser => self.pauser,
            Role::Minter => self.minter,
            Role::Blacklister => self.blacklister,
        }
    }

    /// A caller that holds no role.
    pub fn new(account: Address) -> (caller: Caller)
        ensures
            caller.account == account,
            forall|role: Role| !caller.holds(role),
    {
        Caller { account, pauser: false, minter: false, blacklister: false }
    }

    /// The same caller, holding `role` besides the roles it held.
    pub fn with_role(self, role: Role) -> (caller: Caller)
        ensures
            caller.account == self.account,
            forall|other: Role| caller.holds(other) == (other == role || self.holds(other)),
    {
        match role {
            Role::Pauser => Caller { pauser: true, ..self },
            Role::Minter => Caller { minter: true, ..self },
            Role::Blacklister => Caller { blacklister: true, ..self },
        }
    }

    /// Whether the caller holds `role`.
    pub fn has_role(&self, role: Role) -> (held: bool)
        ensures
            held == self.holds(role),
    {
        match role {
            Role::Pauser => self.pauser,
            Role::Minter => self.minter,
            Role::Blacklister => self.blacklister,
        }
    }
}

} // verus!
