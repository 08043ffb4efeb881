//! The controller and its model: the state it holds, and each operation as a
//! function of that state.

use vstd::prelude::*;
use alloy_primitives::U256;
use crate::address::Address;
use crate::blacklist::Blacklist;
use crate::error::Error;
use crate::ledger::LedgerCall;
use crate::role::{Caller, Role, BLACKLISTER_ROLE, MINTER_ROLE, PAUSER_ROLE};

verus! {

/// What the controller holds, as mathematics: the pause flag and the set of
/// blocked accounts.
///
/// Each operation of the controller is defined here as a function of this
/// state and of the call's arguments. Every operation runs its checks in one
/// order: the caller's role first, then the blacklist and the pause flag, and
/// only then anything that has an effect.
#[verifier::ext_equal]
pub struct State {
    pub paused: bool,
    pub blacklist: Set<Address>,
}

impl State {
    /// The state of a new controller: running, nobody blocked.
    pub open spec fn fresh() -> State {
        State { paused: false, blacklist: Set::empty() }
    }

    /// Minting asks for the minter role, then for a running contract.
    pub open spec fn mint(
        self,
        caller: Caller,
        account: Address,
        value: U256,
    ) -> Result<LedgerCall, Error> {
        if !caller.holds(Role::Minter) {
            Err(Error::NotAuthorized(caller.account))
        } else if self.paused {
            Err(Error::ContractPaused)
        } else {
            Ok(LedgerCall::Mint { account, value })
        }
    }

    /// Blocking asks for the blacklister role, then for an account that is
    /// not blocked yet. `Ok` holds the state that follows.
    pub open spec fn add_to_blacklist(
        self,
        caller: Caller,
        account: Address,
    ) -> Result<State, Error> {
        if !caller.holds(Role::Blacklister) {
            Err(Error::NotAuthorized(caller.account))
        } else if self.blacklist.contains(account) {
            Err(Error::AlreadyBlacklisted(account))
        } else {
            Ok(State { blacklist: self.blacklist.insert(account), ..self })
        }
    }

    /// Freeing asks for the blacklister role, then for an account that is
    /// blocked. `Ok` holds the state that follows.
    pub open spec fn remove_from_blacklist(
        self,
        caller: Caller,
        account: Address,
    ) -> Result<State, Error> {
        if !caller.holds(Role::Blacklister) {
            Err(Error::NotAuthorized(caller.account))
        } else if !self.blacklist.contains(account) {
            Err(Error::NotBlacklisted(account))
        } else {
            Ok(State { blacklist: self.blacklist.remove(account), ..self })
        }
    }

    /// Pausing asks for the pauser role, then for a running contract: to
    /// pause twice is an internal error. `Ok` holds the state that follows.
    pub open spec fn pause(self, caller: Caller) -> Result<State, Error> {
        if !caller.holds(Role::Pauser) {
            Err(Error::NotAuthorized(caller.account))
        } else if self.paused {
            Err(Error::InternalError)
        } else {
            Ok(State { paused: true, ..self })
        }
    }

    /// A transfer asks that the caller is not blocked, then for a running
    /// contract.
    pub open spec fn transfer(
        self,
        sender: Address,
        to: Address,
        value: U256,
    ) -> Result<LedgerCall, Error> {
        if self.blacklist.contains(sender) {
            Err(Error::SenderBlacklisted(sender))
        } else if self.paused {
            Err(Error::ContractPaused)
        } else {
            Ok(LedgerCall::Transfer { from: sender, to, value })
        }
    }

    /// A transfer on an allowance asks that the caller, the spender, is not
    /// blocked, then for a running contract. The account `from` whose tokens
    /// move is not looked up.
    pub open spec fn transfer_from(
        self,
        spender: Address,
        from: Address,
        to: Address,
        value: U256,
    ) -> Result<LedgerCall, Error> {
        if self.blacklist.contains(spender) {
            Err(Error::SenderBlacklisted(spender))
        } else if self.paused {
            Err(Error::ContractPaused)
        } else {
            Ok(LedgerCall::TransferFrom { spender, from, to, value })
        }
    }

    /// The state after a call with the outcome `outcome`: a refused call
    /// leaves the state as it was.
    pub open spec fn after(self, outcome: Result<State, Error>) -> State {
        match outcome {
            Ok(next) => next,
            Err(_) => self,
        }
    }

    /// What the caller is told of a call with the outcome `outcome`.
    pub open spec fn answer(outcome: Result<State, Error>) -> Result<(), Error> {
        match outcome {
            Ok(_) => Ok(()),
            Err(refusal) => Err(refusal),
        }
    }
}

/// The rules that stand in front of a fungible token.
///
/// It holds the pause flag and the blacklist, and decides for each call
/// whether it may go ahead. Balances are kept by a ledger elsewhere: `mint`,
/// `transfer` and `transfer_from` answer a call that may go ahead with the
/// request that is to be put to the ledger, and [`crate::ledger::settle`]
/// turns the ledger's reply into the answer for the caller. Who holds which
/// role is kept by a registry elsewhere too: a [`Caller`] brings what it says.
pub struct Erc20Example {
    paused: bool,
    blacklist: Blacklist,
}

impl Erc20Example {
    /// Identifier of the role that `pause` asks for.
    pub const PAUSER_ROLE: [u8; 32] = PAUSER_ROLE;

    /// Identifier of the role that `mint` asks for.
    pub const MINTER_ROLE: [u8; 32] = MINTER_ROLE;

    /// Identifier of the role that `add_to_blacklist` and
    /// `remove_from_blacklist` ask for.
    pub const BLACKLISTER_ROLE: [u8; 32] = BLACKLISTER_ROLE;

    /// The pause flag and the blocked accounts.
    pub closed spec fn view(&self) -> State {
        State { paused: self.paused, blacklist: self.blacklist@ }
    }

    /// A running controller that blocks nobody.
    pub fn new() -> (controller: Erc20Example)
        ensures
            controller@ == State::fresh(),
    {
        Erc20Example { paused: false, blacklist: Blacklist::new() }
    }

    /// A controller with the pause flag as given, that blocks the accounts
    /// in `blocked` and no others. An account may stand in `blocked` more
    /// than once.
    pub fn restore(paused: bool, blocked: &Vec<Address>) -> (controller: Erc20Example)
        ensures
            controller@ == (State { paused, blacklist: blocked@.to_set() }),
    {
        let mut blacklist = Blacklist::new();
        let mut i: usize = 0;
        while i < blocked.len()
            invariant
                i <= blocked@.len(),
                forall|a: Address|
                    blacklist@.contains(a) <==> exists|j: int|
                        0 <= j < i && #[trigger] blocked@[j] == a,
            decreases blocked@.len() - i,
        {
            blacklist.insert(blocked[i]);
            i += 1;
        }
        Erc20Example { paused, blacklist }
    }

    /// Whether the contract is paused.
    pub fn paused(&self) -> (paused: bool)
        ensures
            paused == self@.paused,
    {
        self.paused
    }

    /// Whether `account` is blocked.
    pub fn is_blacklisted(&self, account: Address) -> (blocked: bool)
        ensures
            blocked == self@.blacklist.contains(account),
    {
        self.blacklist.contains(account)
    }

    /// Clears the creation of `value` tokens for `account`.
    ///
    /// Refused with `NotAuthorized` unless the caller is a minter, then with
    /// `ContractPaused` while the contract is paused.
    pub fn mint(
        &self,
        caller: &Caller,
        account: Address,
        value: U256,
    ) -> (cleared: Result<LedgerCall, Error>)
        ensures
            cleared == self@.mint(*caller, account, value),
    {
        if !caller.has_role(Role::Minter) {
            return Err(Error::NotAuthorized(caller.account));
        }
        if self.paused {
            return Err(Error::ContractPaused);
        }
        Ok(LedgerCall::Mint { account, value })
    }

    /// Blocks `account`.
    ///
    /// Refused with `NotAuthorized` unless the caller is a blacklister, then
    /// with `AlreadyBlacklisted` if the account is blocked already.
    pub fn add_to_blacklist(
        &mut self,
        caller: &Caller,
        account: Address,
    ) -> (done: Result<(), Error>)
        ensures
            done == State::answer(old(self)@.add_to_blacklist(*caller, account)),
            final(self)@ == old(self)@.after(old(self)@.add_to_blacklist(*caller, account)),
    {
        if !caller.has_role(Role::Blacklister) {
            return Err(Error::NotAuthorized(caller.account));
        }
        if self.blacklist.contains(account) {
            return Err(Error::AlreadyBlacklisted(account));
        }
        self.blacklist.insert(account);
        Ok(())
    }

    /// Frees `account`.
    ///
    /// Refused with `NotAuthorized` unless the caller is a blacklister, then
    /// with `NotBlacklisted` if the account is not blocked.
    pub fn remove_from_blacklist(
        &mut self,
        caller: &Caller,
        account: Address,
    ) -> (done: Result<(), Error>)
        ensures
            done == State::answer(old(self)@.remove_from_blacklist(*caller, account)),
            final(self)@ == old(self)@.after(old(self)@.remove_from_blacklist(*caller, account)),
    {
        if !caller.has_role(Role::Blacklister) {
            return Err(Error::NotAuthorized(caller.account));
        }
        if !self.blacklist.contains(account) {
            return Err(Error::NotBlacklisted(account));
        }
        self.blacklist.remove(account);
        Ok(())
    }

    /// Pauses the contract.
    ///
    /// Refused with `NotAuthorized` unless the caller is a pauser, then with
    /// `InternalError` if the contract is paused already.
    pub fn pause(&mut self, caller: &Caller) -> (done: Result<(), Error>)
        ensures
            done == State::answer(old(self)@.pause(*caller)),
            final(self)@ == old(self)@.after(old(self)@.pause(*caller)),
    {
        if !caller.has_role(Role::Pauser) {
            return Err(Error::NotAuthorized(caller.account));
        }
        if self.paused {
            return Err(Error::InternalError);
        }
        self.paused = true;
        Ok(())
    }

    /// Clears the transfer of `value` tokens from the caller `sender` to
    /// `to`.
    ///
    /// Refused with `SenderBlacklisted` if the caller is blocked, then with
    /// `ContractPaused` while the contract is paused.
    pub fn transfer(
        &self,
        sender: Address,
        to: Address,
        value: U256,
    ) -> (cleared: Result<LedgerCall, Error>)
        ensures
            cleared == self@.transfer(sender, to, value),
    {
        if self.blacklist.contains(sender) {
            return Err(Error::SenderBlacklisted(sender));
        }
        if self.paused {
            return Err(Error::ContractPaused);
        }
        Ok(LedgerCall::Transfer { from: sender, to, value })
    }

    /// Clears the transfer of `value` tokens from `from` to `to` by the
    /// caller `spender`.
    ///
    /// Refused with `SenderBlacklisted` if the caller is blocked, then with
    /// `ContractPaused` while the contract is paused. It is the caller that
    /// is held against the blacklist, not `from`: a spender that is not
    /// blocked may move the tokens of an account that is.
    pub fn transfer_from(
        &self,
        spender: Address,
        from: Address,
        to: Address,
        value: U256,
    ) -> (cleared: Result<LedgerCall, Error>)
        ensures
            cleared == self@.transfer_from(spender, from, to, value),
    {
        if self.blacklist.contains(spender) {
            return Err(Error::SenderBlacklisted(spender));
        }
        if self.paused {
            return Err(Error::ContractPaused);
        }
        Ok(LedgerCall::TransferFrom { spender, from, to, value })
    }
}

} // verus!
