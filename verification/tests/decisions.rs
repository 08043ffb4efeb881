use alloy_primitives::U256;
use gated_token::address::Address;
use gated_token::controller::Erc20Example;
use gated_token::error::Error;
use gated_token::ledger::{settle, LedgerCall};
use gated_token::role::{Caller, Role};

fn account(tag: u8) -> Address {
    Address { bytes: [tag; 20] }
}

fn admin() -> Caller {
    Caller::new(account(9))
        .with_role(Role::Pauser)
        .with_role(Role::Minter)
        .with_role(Role::Blacklister)
}

fn paused_controller() -> Erc20Example {
    let mut controller = Erc20Example::new();
    assert_eq!(controller.pause(&admin()), Ok(()));
    controller
}

#[test]
fn mint_by_a_minter_is_cleared() {
    let controller = Erc20Example::new();
    let minter = Caller::new(account(1)).with_role(Role::Minter);
    assert_eq!(
        controller.mint(&minter, account(2), U256::from(100u64)),
        Ok(LedgerCall::Mint { account: account(2), value: U256::from(100u64) })
    );
}

#[test]
fn mint_without_the_role_is_refused() {
    let controller = Erc20Example::new();
    let other = Caller::new(account(3)).with_role(Role::Pauser).with_role(Role::Blacklister);
    assert_eq!(
        controller.mint(&other, account(2), U256::from(100u64)),
        Err(Error::NotAuthorized(account(3)))
    );
}

#[test]
fn mint_while_paused_is_refused() {
    let controller = paused_controller();
    assert_eq!(
        controller.mint(&admin(), account(2), U256::from(1u64)),
        Err(Error::ContractPaused)
    );
    assert_eq!(controller.mint(&admin(), account(2), U256::MAX), Err(Error::ContractPaused));
    assert_eq!(controller.mint(&admin(), account(2), U256::ZERO), Err(Error::ContractPaused));
}

#[test]
fn mint_while_paused_without_the_role_names_the_role_first() {
    let controller = paused_controller();
    assert_eq!(
        controller.mint(&Caller::new(account(3)), account(2), U256::from(1u64)),
        Err(Error::NotAuthorized(account(3)))
    );
}

#[test]
fn mint_for_a_blocked_account_is_cleared() {
    let mut controller = Erc20Example::new();
    assert_eq!(controller.add_to_blacklist(&admin(), account(2)), Ok(()));
    assert_eq!(
        controller.mint(&admin(), account(2), U256::from(5u64)),
        Ok(LedgerCall::Mint { account: account(2), value: U256::from(5u64) })
    );
}

#[test]
fn transfer_is_cleared_for_a_free_caller() {
    let controller = Erc20Example::new();
    assert_eq!(
        controller.transfer(account(1), account(2), U256::from(10u64)),
        Ok(LedgerCall::Transfer { from: account(1), to: account(2), value: U256::from(10u64) })
    );
}

#[test]
fn transfer_by_a_blocked_caller_is_refused_whatever_the_amount() {
    let mut controller = Erc20Example::new();
    assert_eq!(controller.add_to_blacklist(&admin(), account(1)), Ok(()));
    for value in [U256::ZERO, U256::from(1u64), U256::from(10u64), U256::MAX] {
        assert_eq!(
            controller.transfer(account(1), account(2), value),
            Err(Error::SenderBlacklisted(account(1)))
        );
    }
}

#[test]
fn transfer_to_a_blocked_account_is_cleared() {
    let mut controller = Erc20Example::new();
    assert_eq!(controller.add_to_blacklist(&admin(), account(2)), Ok(()));
    assert_eq!(
        controller.transfer(account(1), account(2), U256::from(10u64)),
        Ok(LedgerCall::Transfer { from: account(1), to: account(2), value: U256::from(10u64) })
    );
}

#[test]
fn transfer_while_paused_is_refused() {
    let controller = paused_controller();
    assert_eq!(
        controller.transfer(account(1), account(2), U256::from(10u64)),
        Err(Error::ContractPaused)
    );
}

#[test]
fn transfer_by_a_blocked_caller_while_paused_names_the_blacklist_first() {
    let mut controller = paused_controller();
    assert_eq!(controller.add_to_blacklist(&admin(), account(1)), Ok(()));
    assert_eq!(
        controller.transfer(account(1), account(2), U256::from(10u64)),
        Err(Error::SenderBlacklisted(account(1)))
    );
    assert_eq!(
        controller.transfer_from(account(1), account(3), account(2), U256::from(10u64)),
        Err(Error::SenderBlacklisted(account(1)))
    );
}

#[test]
fn transfer_from_is_cleared_for_a_free_spender() {
    let controller = Erc20Example::new();
    assert_eq!(
        controller.transfer_from(account(1), account(2), account(3), U256::from(7u64)),
        Ok(LedgerCall::TransferFrom {
            spender: account(1),
            from: account(2),
            to: account(3),
            value: U256::from(7u64),
        })
    );
}

#[test]
fn transfer_from_by_a_blocked_spender_is_refused() {
    let mut controller = Erc20Example::new();
    assert_eq!(controller.add_to_blacklist(&admin(), account(1)), Ok(()));
    assert_eq!(
        controller.transfer_from(account(1), account(2), account(3), U256::from(7u64)),
        Err(Error::SenderBlacklisted(account(1)))
    );
}

#[test]
fn transfer_from_a_blocked_owner_by_a_free_spender_is_cleared() {
    let mut controller = Erc20Example::new();
    assert_eq!(controller.add_to_blacklist(&admin(), account(2)), Ok(()));
    assert_eq!(
        controller.transfer_from(account(1), account(2), account(3), U256::from(7u64)),
        Ok(LedgerCall::TransferFrom {
            spender: account(1),
            from: account(2),
            to: account(3),
            value: U256::from(7u64),
        })
    );
}

#[test]
fn transfer_from_while_paused_is_refused() {
    let controller = paused_controller();
    assert_eq!(
        controller.transfer_from(account(1), account(2), account(3), U256::from(7u64)),
        Err(Error::ContractPaused)
    );
}

#[test]
fn pause_by_a_pauser_pauses() {
    let mut controller = Erc20Example::new();
    let pauser = Caller::new(account(4)).with_role(Role::Pauser);
    assert_eq!(controller.pause(&pauser), Ok(()));
    assert!(controller.paused());
}

#[test]
fn pause_without_the_role_is_refused() {
    let mut controller = Erc20Example::new();
    let other = Caller::new(account(4)).with_role(Role::Minter).with_role(Role::Blacklister);
    assert_eq!(controller.pause(&other), Err(Error::NotAuthorized(account(4))));
    assert!(!controller.paused());
}

#[test]
fn pause_twice_is_an_internal_error() {
    let mut controller = paused_controller();
    assert_eq!(controller.pause(&admin()), Err(Error::InternalError));
    assert!(controller.paused());
}

#[test]
fn pause_twice_without_the_role_names_the_role_first() {
    let mut controller = paused_controller();
    assert_eq!(
        controller.pause(&Caller::new(account(4))),
        Err(Error::NotAuthorized(account(4)))
    );
}

#[test]
fn pause_keeps_the_blacklist() {
    let mut controller = Erc20Example::new();
    assert_eq!(controller.add_to_blacklist(&admin(), account(1)), Ok(()));
    assert_eq!(controller.pause(&admin()), Ok(()));
    assert!(controller.is_blacklisted(account(1)));
    assert!(!controller.is_blacklisted(account(2)));
}

#[test]
fn blacklisting_goes_on_while_paused() {
    let mut controller = paused_controller();
    assert_eq!(controller.add_to_blacklist(&admin(), account(1)), Ok(()));
    assert_eq!(controller.remove_from_blacklist(&admin(), account(1)), Ok(()));
    assert!(controller.paused());
}

#[test]
fn settle_hands_success_on() {
    assert_eq!(settle::<bool, String>(Ok(true)), Ok(true));
    assert_eq!(settle::<bool, String>(Ok(false)), Ok(false));
    assert_eq!(settle::<(), String>(Ok(())), Ok(()));
}

#[test]
fn settle_reports_any_failure_as_internal_error() {
    assert_eq!(settle::<bool, String>(Err(String::from("overflow"))), Err(Error::InternalError));
    assert_eq!(settle::<(), u8>(Err(3)), Err(Error::InternalError));
}

#[test]
fn add_then_remove_lets_the_account_transfer_again() {
    let mut controller = Erc20Example::new();
    assert_eq!(controller.add_to_blacklist(&admin(), account(1)), Ok(()));
    assert_eq!(
        controller.transfer(account(1), account(2), U256::from(10u64)),
        Err(Error::SenderBlacklisted(account(1)))
    );
    assert_eq!(controller.remove_from_blacklist(&admin(), account(1)), Ok(()));
    assert!(!controller.is_blacklisted(account(1)));
    let cleared = controller.transfer(account(1), account(2), U256::from(10u64));
    assert_eq!(
        cleared,
        Ok(LedgerCall::Transfer { from: account(1), to: account(2), value: U256::from(10u64) })
    );
    assert_eq!(settle::<bool, String>(Ok(true)), Ok(true));
}

#[test]
fn a_state_with_only_the_named_accounts_answers_alike() {
    let whole = Erc20Example::restore(false, &vec![account(1), account(2), account(3)]);
    let part = Erc20Example::restore(false, &vec![account(2)]);
    assert_eq!(
        whole.transfer(account(2), account(5), U256::from(1u64)),
        part.transfer(account(2), account(5), U256::from(1u64))
    );
    assert_eq!(
        whole.transfer(account(2), account(5), U256::from(1u64)),
        Err(Error::SenderBlacklisted(account(2)))
    );
    let none = Erc20Example::restore(false, &Vec::new());
    assert_eq!(
        whole.transfer_from(account(4), account(1), account(5), U256::from(1u64)),
        none.transfer_from(account(4), account(1), account(5), U256::from(1u64))
    );
    assert_eq!(
        whole.mint(&admin(), account(1), U256::from(1u64)),
        none.mint(&admin(), account(1), U256::from(1u64))
    );
}
