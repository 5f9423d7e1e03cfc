use soroban_sdk::testutils::{Address as _, EnvTestConfig};
use soroban_sdk::{Address, Env};
use stellar_stake_house::{AllowanceLedger, Error};

fn quiet_env() -> Env {
    Env::new_with_config(EnvTestConfig { capture_snapshot_at_drop: false })
}

#[test]
fn new_ledger_reads_zero_everywhere() {
    let env = quiet_env();
    let owner = Address::generate(&env);
    let spender = Address::generate(&env);
    let ledger = AllowanceLedger::new(&env);
    assert_eq!(ledger.entries.len(), 0);
    assert_eq!(ledger.get_allowance(&owner, &spender), 0);
}

#[test]
fn set_allowance_overwrites_and_does_not_add() {
    let env = quiet_env();
    let owner = Address::generate(&env);
    let spender = Address::generate(&env);
    let mut ledger = AllowanceLedger::new(&env);
    assert_eq!(ledger.set_allowance(true, &owner, &spender, 1000), Ok(()));
    assert_eq!(ledger.get_allowance(&owner, &spender), 1000);
    assert_eq!(ledger.set_allowance(true, &owner, &spender, 250), Ok(()));
    assert_eq!(ledger.get_allowance(&owner, &spender), 250);
    assert_eq!(ledger.entries.len(), 1);
}

#[test]
fn set_allowance_is_per_ordered_pair() {
    let env = quiet_env();
    let owner = Address::generate(&env);
    let spender = Address::generate(&env);
    let third = Address::generate(&env);
    let mut ledger = AllowanceLedger::new(&env);
    assert_eq!(ledger.set_allowance(true, &owner, &spender, 70), Ok(()));
    assert_eq!(ledger.set_allowance(true, &owner, &third, 5), Ok(()));
    assert_eq!(ledger.get_allowance(&owner, &spender), 70);
    assert_eq!(ledger.get_allowance(&owner, &third), 5);
    assert_eq!(ledger.get_allowance(&spender, &owner), 0);
    assert_eq!(ledger.get_allowance(&third, &owner), 0);
    assert_eq!(ledger.entries.len(), 2);
}

#[test]
fn set_allowance_needs_the_owner_authenticated() {
    let env = quiet_env();
    let owner = Address::generate(&env);
    let spender = Address::generate(&env);
    let mut ledger = AllowanceLedger::new(&env);
    assert_eq!(ledger.set_allowance(true, &owner, &spender, 40), Ok(()));
    assert_eq!(
        ledger.set_allowance(false, &owner, &spender, 900),
        Err(Error::Unauthenticated)
    );
    assert_eq!(ledger.get_allowance(&owner, &spender), 40);
}

#[test]
fn set_allowance_takes_a_negative_amount_as_it_is() {
    let env = quiet_env();
    let owner = Address::generate(&env);
    let spender = Address::generate(&env);
    let mut ledger = AllowanceLedger::new(&env);
    assert_eq!(ledger.set_allowance(true, &owner, &spender, -3), Ok(()));
    assert_eq!(ledger.get_allowance(&owner, &spender), -3);
}

#[test]
fn consume_leaves_the_positive_remainder() {
    let env = quiet_env();
    let owner = Address::generate(&env);
    let spender = Address::generate(&env);
    let mut ledger = AllowanceLedger::new(&env);
    assert_eq!(ledger.set_allowance(true, &owner, &spender, 1000), Ok(()));
    assert_eq!(ledger.consume(&owner, &spender, 400), Ok(()));
    assert_eq!(ledger.get_allowance(&owner, &spender), 600);
    assert_eq!(ledger.entries.len(), 1);
}

#[test]
fn consume_of_everything_removes_the_entry() {
    let env = quiet_env();
    let owner = Address::generate(&env);
    let spender = Address::generate(&env);
    let other = Address::generate(&env);
    let mut ledger = AllowanceLedger::new(&env);
    assert_eq!(ledger.set_allowance(true, &owner, &spender, 1000), Ok(()));
    assert_eq!(ledger.set_allowance(true, &owner, &other, 7), Ok(()));
    assert_eq!(ledger.consume(&owner, &spender, 1000), Ok(()));
    assert_eq!(ledger.get_allowance(&owner, &spender), 0);
    assert!(!ledger.entries.contains_key((owner.clone(), spender.clone())));
    assert_eq!(ledger.entries.len(), 1);
    assert_eq!(ledger.get_allowance(&owner, &other), 7);
}

#[test]
fn consume_above_the_allowance_is_refused() {
    let env = quiet_env();
    let owner = Address::generate(&env);
    let spender = Address::generate(&env);
    let mut ledger = AllowanceLedger::new(&env);
    assert_eq!(ledger.set_allowance(true, &owner, &spender, 600), Ok(()));
    assert_eq!(
        ledger.consume(&owner, &spender, 601),
        Err(Error::InsufficientAllowance)
    );
    assert_eq!(ledger.get_allowance(&owner, &spender), 600);
    assert_eq!(ledger.entries.len(), 1);
}

#[test]
fn consume_without_an_entry_is_refused() {
    let env = quiet_env();
    let owner = Address::generate(&env);
    let spender = Address::generate(&env);
    let mut ledger = AllowanceLedger::new(&env);
    assert_eq!(
        ledger.consume(&owner, &spender, 1),
        Err(Error::InsufficientAllowance)
    );
    assert_eq!(ledger.entries.len(), 0);
}

#[test]
fn consume_of_nothing_from_nothing_leaves_no_entry() {
    let env = quiet_env();
    let owner = Address::generate(&env);
    let spender = Address::generate(&env);
    let mut ledger = AllowanceLedger::new(&env);
    assert_eq!(ledger.consume(&owner, &spender, 0), Ok(()));
    assert_eq!(ledger.get_allowance(&owner, &spender), 0);
    assert_eq!(ledger.entries.len(), 0);
}

#[test]
fn consume_of_a_negative_amount_raises_the_allowance() {
    let env = quiet_env();
    let owner = Address::generate(&env);
    let spender = Address::generate(&env);
    let mut ledger = AllowanceLedger::new(&env);
    assert_eq!(ledger.set_allowance(true, &owner, &spender, 5), Ok(()));
    assert_eq!(ledger.consume(&owner, &spender, -3), Ok(()));
    assert_eq!(ledger.get_allowance(&owner, &spender), 8);
}

#[test]
fn consume_that_would_leave_the_range_is_refused() {
    let env = quiet_env();
    let owner = Address::generate(&env);
    let spender = Address::generate(&env);
    let mut ledger = AllowanceLedger::new(&env);
    assert_eq!(ledger.set_allowance(true, &owner, &spender, i128::MAX), Ok(()));
    assert_eq!(
        ledger.consume(&owner, &spender, -1),
        Err(Error::AmountOverflow)
    );
    assert_eq!(ledger.get_allowance(&owner, &spender), i128::MAX);
}

#[test]
fn a_value_that_is_no_amount_counts_as_absent() {
    let env = quiet_env();
    let owner = Address::generate(&env);
    let spender = Address::generate(&env);
    let mut odd: soroban_sdk::Map<(Address, Address), bool> = soroban_sdk::Map::new(&env);
    odd.set((owner.clone(), spender.clone()), true);
    let entries: soroban_sdk::Map<(Address, Address), i128> =
        soroban_sdk::TryFromVal::try_from_val(&env, &odd.to_val()).unwrap();
    let mut ledger = AllowanceLedger { entries };
    assert_eq!(ledger.get_allowance(&owner, &spender), 0);
    assert_eq!(ledger.set_allowance(true, &owner, &spender, 12), Ok(()));
    assert_eq!(ledger.get_allowance(&owner, &spender), 12);
}
