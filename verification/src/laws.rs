//! What holds of the controller over more than one call, proved from the
//! definitions in [`crate::controller::State`], by which every operation of
//! [`crate::controller::Erc20Example`] is specified.

use vstd::prelude::*;
use alloy_primitives::U256;
use crate::address::Address;
use crate::controller::State;
use crate::error::Error;
use crate::ledger::{settled, LedgerCall};
use crate::role::{Caller, Role};

verus! {

/// One call to the controller, with the caller and the arguments it came
/// with.
pub enum Call {
    Mint { caller: Caller, account: Address, value: U256 },
    AddToBlacklist { caller: Caller, account: Address },
    RemoveFromBlacklist { caller: Caller, account: Address },
    Pause { caller: Caller },
    Transfer { sender: Address, to: Address, value: U256 },
    TransferFrom { spender: Address, from: Address, to: Address, value: U256 },
}

impl Call {
    /// Whether the call asks to block `account`.
    pub open spec fn blocks(self, account: Address) -> bool {
        self matches Call::AddToBlacklist { account: named, .. } && named == account
    }
}

impl State {
    /// The state after `call`. Calls that only clear a request for the
    /// ledger leave the state as it is.
    pub open spec fn step(self, call: Call) -> State {
        match call {
            Call::AddToBlacklist { caller, account } => self.after(
                self.add_to_blacklist(caller, account),
            ),
            Call::RemoveFromBlacklist { caller, account } => self.after(
                self.remove_from_blacklist(caller, account),
            ),
            Call::Pause { caller } => self.after(self.pause(caller)),
            Call::Mint { .. } | Call::Transfer { .. } | Call::TransferFrom { .. } => self,
        }
    }

    /// The state after `calls`, made in order.
    pub open spec fn run(self, calls: Seq<Call>) -> State
        decreases calls.len(),
    {
        if calls.len() == 0 {
            self
        } else {
            self.run(calls.drop_last()).step(calls.last())
        }
    }
}

/// Blocking an account twice in a row: the second call is refused with
/// `AlreadyBlacklisted`, and so leaves the state as the first call left it.
/// The second caller is a blacklister; so is the first, unless the account
/// was blocked before.
pub proof fn lemma_second_add_is_refused(
    state: State,
    first: Caller,
    second: Caller,
    account: Address,
)
    requires
        first.holds(Role::Blacklister) || state.blacklist.contains(account),
        second.holds(Role::Blacklister),
    ensures
        ({
            let blocked = state.after(state.add_to_blacklist(first, account));
            &&& blocked.add_to_blacklist(second, account) == Err::<State, Error>(
                Error::AlreadyBlacklisted(account),
            )
            &&& blocked.after(blocked.add_to_blacklist(second, account)) == blocked
        }),
{
}

/// Freeing an account that is not blocked changes nothing. A blacklister is
/// told `NotBlacklisted`, any other caller `NotAuthorized`.
pub proof fn lemma_remove_of_free_account_is_refused(
    state: State,
    caller: Caller,
    account: Address,
)
    requires
        !state.blacklist.contains(account),
    ensures
        state.after(state.remove_from_blacklist(caller, account)) == state,
        caller.holds(Role::Blacklister) ==> state.remove_from_blacklist(caller, account) == Err::<
            State,
            Error,
        >(Error::NotBlacklisted(account)),
        !caller.holds(Role::Blacklister) ==> state.remove_from_blacklist(caller, account) == Err::<
            State,
            Error,
        >(Error::NotAuthorized(caller.account)),
{
}

/// An account that no call asked to block is not blocked: whatever calls a
/// new controller has seen, as long as none of them was `add_to_blacklist`
/// for the account.
pub proof fn lemma_never_added_is_not_blocked(calls: Seq<Call>, account: Address)
    requires
        forall|i: int| 0 <= i < calls.len() ==> !(#[trigger] calls[i]).blocks(account),
    ensures
        !State::fresh().run(calls).blacklist.contains(account),
    decreases calls.len(),
{
    if calls.len() > 0 {
        let earlier = calls.drop_last();
        lemma_never_added_is_not_blocked(earlier, account);
    }
}

/// Freeing an account that no call ever asked to block, by a blacklister, is
/// refused with `NotBlacklisted` and changes nothing.
pub proof fn lemma_remove_of_never_added_is_refused(
    calls: Seq<Call>,
    caller: Caller,
    account: Address,
)
    requires
        caller.holds(Role::Blacklister),
        forall|i: int| 0 <= i < calls.len() ==> !(#[trigger] calls[i]).blocks(account),
    ensures
        ({
            let state = State::fresh().run(calls);
            &&& state.remove_from_blacklist(caller, account) == Err::<State, Error>(
                Error::NotBlacklisted(account),
            )
            &&& state.step(Call::RemoveFromBlacklist { caller, account }) == state
        }),
{
    lemma_never_added_is_not_blocked(calls, account);
}

/// A blocked caller moves no tokens: its `transfer` and its `transfer_from`
/// are refused with `SenderBlacklisted`, whoever is to receive, whatever the
/// amount, paused or not. The answer is an error, so no request goes to the
/// ledger and no balance changes.
pub proof fn lemma_blocked_caller_is_refused(
    state: State,
    caller: Address,
    from: Address,
    to: Address,
    value: U256,
)
    requires
        state.blacklist.contains(caller),
    ensures
        state.transfer(caller, to, value) == Err::<LedgerCall, Error>(
            Error::SenderBlacklisted(caller),
        ),
        state.transfer_from(caller, from, to, value) == Err::<LedgerCall, Error>(
            Error::SenderBlacklisted(caller),
        ),
{
}

/// While the contract is paused nothing is cleared for the ledger: `mint`,
/// `transfer` and `transfer_from` answer with an error for every caller,
/// account and amount.
pub proof fn lemma_paused_clears_nothing(
    state: State,
    caller: Caller,
    account: Address,
    from: Address,
    to: Address,
    value: U256,
)
    requires
        state.paused,
    ensures
        state.mint(caller, account, value) is Err,
        state.transfer(caller.account, to, value) is Err,
        state.transfer_from(caller.account, from, to, value) is Err,
{
}

/// While the contract is paused, `mint` is refused with `ContractPaused`, or
/// with `NotAuthorized` where the caller is no minter: the role is looked at
/// first.
pub proof fn lemma_paused_refuses_mint(
    state: State,
    caller: Caller,
    account: Address,
    value: U256,
)
    requires
        state.paused,
    ensures
        caller.holds(Role::Minter) ==> state.mint(caller, account, value) == Err::<
            LedgerCall,
            Error,
        >(Error::ContractPaused),
        !caller.holds(Role::Minter) ==> state.mint(caller, account, value) == Err::<
            LedgerCall,
            Error,
        >(Error::NotAuthorized(caller.account)),
{
}

/// While the contract is paused, `transfer` and `transfer_from` by a caller
/// that is not blocked are refused with `ContractPaused`. (A blocked caller
/// is told so instead: the blacklist is looked at first.)
pub proof fn lemma_paused_refuses_transfers(
    state: State,
    caller: Address,
    from: Address,
    to: Address,
    value: U256,
)
    requires
        state.paused,
        !state.blacklist.contains(caller),
    ensures
        state.transfer(caller, to, value) == Err::<LedgerCall, Error>(Error::ContractPaused),
        state.transfer_from(caller, from, to, value) == Err::<LedgerCall, Error>(
            Error::ContractPaused,
        ),
{
}

/// Blocking an account and freeing it again leaves the account free, and
/// the whole state as it was if the account was free at the start. Its next
/// `transfer`, with the contract running, is cleared for the ledger, and
/// succeeds with what the ledger answers if the ledger carries it out.
///
/// The caller that frees is a blacklister, or there is nothing to free: the
/// account was free at the start and the caller that was to block it was no
/// blacklister.
pub proof fn lemma_add_then_remove_restores<E>(
    state: State,
    adder: Caller,
    remover: Caller,
    account: Address,
    to: Address,
    value: U256,
    moved: bool,
)
    requires
        remover.holds(Role::Blacklister) || (!adder.holds(Role::Blacklister)
            && !state.blacklist.contains(account)),
    ensures
        ({
            let blocked = state.after(state.add_to_blacklist(adder, account));
            let freed = blocked.after(blocked.remove_from_blacklist(remover, account));
            &&& adder.holds(Role::Blacklister) ==> blocked.blacklist.contains(account)
                && blocked.remove_from_blacklist(remover, account) is Ok
            &&& !freed.blacklist.contains(account)
            &&& freed.paused == state.paused
            &&& !state.blacklist.contains(account) ==> freed == state
            &&& !state.paused ==> freed.transfer(account, to, value) == Ok::<LedgerCall, Error>(
                LedgerCall::Transfer { from: account, to, value },
            )
            &&& settled::<bool, E>(Ok(moved)) == Ok::<bool, Error>(moved)
        }),
{
}

/// A request is cleared for the ledger only where every condition is met: a
/// caller without the role, a blocked caller, or a paused contract never
/// leads to one.
pub proof fn lemma_cleared_call_met_every_condition(
    state: State,
    caller: Caller,
    account: Address,
    from: Address,
    to: Address,
    value: U256,
)
    ensures
        state.mint(caller, account, value) is Ok ==> caller.holds(Role::Minter) && !state.paused,
        state.transfer(caller.account, to, value) is Ok ==> !state.blacklist.contains(
            caller.account,
        ) && !state.paused,
        state.transfer_from(caller.account, from, to, value) is Ok ==> !state.blacklist.contains(
            caller.account,
        ) && !state.paused,
{
}

/// A call changes only what it names: blocking and freeing an account leave
/// the pause flag and every other account alone, pausing leaves the
/// blacklist alone.
pub proof fn lemma_calls_change_only_what_they_name(
    state: State,
    caller: Caller,
    account: Address,
    other: Address,
)
    requires
        other != account,
    ensures
        ({
            let added = state.after(state.add_to_blacklist(caller, account));
            let removed = state.after(state.remove_from_blacklist(caller, account));
            let paused = state.after(state.pause(caller));
            &&& added.paused == state.paused
            &&& added.blacklist.contains(other) == state.blacklist.contains(other)
            &&& removed.paused == state.paused
            &&& removed.blacklist.contains(other) == state.blacklist.contains(other)
            &&& paused.blacklist == state.blacklist
        }),
{
}

/// A call reads the pause flag and, of the blacklist, only what is said of
/// the accounts it names: two states that agree on these answer alike, and
/// agree on these afterwards. So a call can be decided on a state that holds
/// no more than the pause flag and the accounts it names.
pub proof fn lemma_calls_read_only_what_they_name(
    one: State,
    other: State,
    caller: Caller,
    account: Address,
    from: Address,
    to: Address,
    value: U256,
)
    requires
        one.paused == other.paused,
        one.blacklist.contains(account) == other.blacklist.contains(account),
        one.blacklist.contains(caller.account) == other.blacklist.contains(caller.account),
    ensures
        one.mint(caller, account, value) == other.mint(caller, account, value),
        one.transfer(caller.account, to, value) == other.transfer(caller.account, to, value),
        one.transfer_from(caller.account, from, to, value) == other.transfer_from(
            caller.account,
            from,
            to,
            value,
        ),
        State::answer(one.pause(caller)) == State::answer(other.pause(caller)),
        one.after(one.pause(caller)).paused == other.after(other.pause(caller)).paused,
        State::answer(one.add_to_blacklist(caller, account)) == State::answer(
            other.add_to_blacklist(caller, account),
        ),
        one.after(one.add_to_blacklist(caller, account)).blacklist.contains(account)
            == other.after(other.add_to_blacklist(caller, account)).blacklist.contains(account),
        State::answer(one.remove_from_blacklist(caller, account)) == State::answer(
            other.remove_from_blacklist(caller, account),
        ),
        one.after(one.remove_from_blacklist(caller, account)).blacklist.contains(account)
            == other.after(other.remove_from_blacklist(caller, account)).blacklist.contains(
            account,
        ),
{
}

/// `transfer_from` holds the caller against the blacklist and not the
/// account whose tokens move: whether `from` is blocked makes no difference
/// to a spender that is another account.
pub proof fn lemma_transfer_from_disregards_owner(
    state: State,
    spender: Address,
    from: Address,
    to: Address,
    value: U256,
)
    requires
        spender != from,
    ensures
        (State { blacklist: state.blacklist.insert(from), ..state }).transfer_from(
            spender,
            from,
            to,
            value,
        ) == state.transfer_from(spender, from, to, value),
        (State { blacklist: state.blacklist.remove(from), ..state }).transfer_from(
            spender,
            from,
            to,
            value,
        ) == state.transfer_from(spender, from, to, value),
{
}

} // verus!
