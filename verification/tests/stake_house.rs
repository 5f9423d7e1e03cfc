use soroban_sdk::testutils::{Address as _, EnvTestConfig, Ledger as _};
use soroban_sdk::token::TokenClient;
use soroban_sdk::{Address, Env};
use stellar_stake_house::stake_house::{grant_expiration, OWNER_GRANT_AMOUNT, OWNER_GRANT_LEDGERS};
use stellar_stake_house::{Error, StakeHouse};

fn silent_env() -> Env {
    Env::new_with_config(EnvTestConfig { capture_snapshot_at_drop: false })
}

#[test]
fn new_house_is_empty_and_unauthorized() {
    let env = silent_env();
    let anyone = Address::generate(&env);
    let house = StakeHouse::new(&env);
    assert_eq!(house.get_participants().len(), 0);
    assert!(!house.owner_authorized);
    assert!(house.get_owner().is_none());
    assert!(!house.is_owner_authorized(&anyone));
}

#[test]
fn join_appends_in_order() {
    let env = silent_env();
    let first = Address::generate(&env);
    let second = Address::generate(&env);
    let mut house = StakeHouse::new(&env);
    house.join(first.clone());
    house.join(second.clone());
    assert_eq!(house.get_participants().len(), 2);
    assert_eq!(house.get_participants().get_unchecked(0), first);
    assert_eq!(house.get_participants().get_unchecked(1), second);
}

#[test]
fn join_twice_lists_the_address_twice() {
    let env = silent_env();
    let user = Address::generate(&env);
    let mut house = StakeHouse::new(&env);
    house.join(user.clone());
    house.join(user.clone());
    assert_eq!(house.get_participants().len(), 2);
    assert_eq!(house.get_participants().get_unchecked(0), user);
    assert_eq!(house.get_participants().get_unchecked(1), user);
}

#[test]
fn grant_expiration_adds_the_fixed_offset() {
    assert_eq!(OWNER_GRANT_LEDGERS, 17_280);
    assert_eq!(grant_expiration(0), 17_280);
    assert_eq!(grant_expiration(100), 17_380);
    assert_eq!(grant_expiration(u32::MAX - 17_280), u32::MAX);
    assert_eq!(grant_expiration(u32::MAX - 17_279), u32::MAX);
    assert_eq!(grant_expiration(u32::MAX), u32::MAX);
}

#[test]
fn record_authorization_sets_flag_and_owner() {
    let env = silent_env();
    let owner = Address::generate(&env);
    let other = Address::generate(&env);
    let mut house = StakeHouse::new(&env);
    assert_eq!(house.record_authorization(true, true, owner.clone()), Ok(()));
    assert!(house.owner_authorized);
    assert_eq!(house.get_owner(), Some(&owner));
    assert!(house.is_owner_authorized(&owner));
    assert!(!house.is_owner_authorized(&other));
}

#[test]
fn record_authorization_refuses_and_keeps_the_house() {
    let env = silent_env();
    let owner = Address::generate(&env);
    let mut house = StakeHouse::new(&env);
    assert_eq!(
        house.record_authorization(false, true, owner.clone()),
        Err(Error::Unauthenticated)
    );
    assert_eq!(
        house.record_authorization(false, false, owner.clone()),
        Err(Error::Unauthenticated)
    );
    assert_eq!(
        house.record_authorization(true, false, owner.clone()),
        Err(Error::ExternalCallFailed)
    );
    assert!(!house.owner_authorized);
    assert!(house.get_owner().is_none());
    assert!(!house.is_owner_authorized(&owner));
}

#[test]
fn record_authorization_again_records_the_later_owner() {
    let env = silent_env();
    let first = Address::generate(&env);
    let second = Address::generate(&env);
    let mut house = StakeHouse::new(&env);
    assert_eq!(house.record_authorization(true, true, first.clone()), Ok(()));
    assert_eq!(house.record_authorization(true, true, second.clone()), Ok(()));
    assert!(house.is_owner_authorized(&second));
    assert!(!house.is_owner_authorized(&first));
}

#[test]
fn is_owner_authorized_needs_the_flag_as_well() {
    let env = silent_env();
    let owner = Address::generate(&env);
    let mut house = StakeHouse::new(&env);
    house.owner = Some(owner.clone());
    assert!(!house.is_owner_authorized(&owner));
    house.owner_authorized = true;
    assert!(house.is_owner_authorized(&owner));
}

#[test]
fn authorize_owner_grants_the_house_at_the_gateway() {
    let env = silent_env();
    env.mock_all_auths();
    env.ledger().set_sequence_number(50);
    let admin = Address::generate(&env);
    let token = env.register_stellar_asset_contract_v2(admin).address();
    let owner = Address::generate(&env);
    let other = Address::generate(&env);
    let own_address = Address::generate(&env);
    let mut house = StakeHouse::new(&env);
    house.join(other.clone());
    assert_eq!(
        house.authorize_owner(&env, true, owner.clone(), &own_address, &token),
        Ok(())
    );
    assert!(house.is_owner_authorized(&owner));
    assert!(!house.is_owner_authorized(&other));
    assert_eq!(house.get_participants().len(), 1);
    let client = TokenClient::new(&env, &token);
    assert_eq!(client.allowance(&owner, &own_address), OWNER_GRANT_AMOUNT);
    assert_eq!(client.allowance(&own_address, &owner), 0);
    env.ledger().set_sequence_number(50 + OWNER_GRANT_LEDGERS);
    assert_eq!(client.allowance(&owner, &own_address), OWNER_GRANT_AMOUNT);
    env.ledger().set_sequence_number(50 + OWNER_GRANT_LEDGERS + 1);
    assert_eq!(client.allowance(&owner, &own_address), 0);
}

#[test]
fn authorize_owner_twice_is_the_same_as_once() {
    let env = silent_env();
    env.mock_all_auths();
    let admin = Address::generate(&env);
    let token = env.register_stellar_asset_contract_v2(admin).address();
    let owner = Address::generate(&env);
    let own_address = Address::generate(&env);
    let mut house = StakeHouse::new(&env);
    assert_eq!(
        house.authorize_owner(&env, true, owner.clone(), &own_address, &token),
        Ok(())
    );
    assert_eq!(
        house.authorize_owner(&env, true, owner.clone(), &own_address, &token),
        Ok(())
    );
    assert!(house.is_owner_authorized(&owner));
    assert_eq!(
        TokenClient::new(&env, &token).allowance(&owner, &own_address),
        OWNER_GRANT_AMOUNT
    );
}

#[test]
fn authorize_owner_unauthenticated_calls_nothing() {
    let env = silent_env();
    env.mock_all_auths();
    let admin = Address::generate(&env);
    let token = env.register_stellar_asset_contract_v2(admin).address();
    let owner = Address::generate(&env);
    let own_address = Address::generate(&env);
    let mut house = StakeHouse::new(&env);
    assert_eq!(
        house.authorize_owner(&env, false, owner.clone(), &own_address, &token),
        Err(Error::Unauthenticated)
    );
    assert!(!house.is_owner_authorized(&owner));
    assert!(house.get_owner().is_none());
    assert_eq!(TokenClient::new(&env, &token).allowance(&owner, &own_address), 0);
}

#[test]
fn authorize_owner_fails_with_the_gateway() {
    let env = silent_env();
    env.mock_all_auths();
    let nowhere = Address::generate(&env);
    let owner = Address::generate(&env);
    let own_address = Address::generate(&env);
    let mut house = StakeHouse::new(&env);
    assert_eq!(
        house.authorize_owner(&env, true, owner.clone(), &own_address, &nowhere),
        Err(Error::ExternalCallFailed)
    );
    assert!(!house.owner_authorized);
    assert!(house.get_owner().is_none());
}

#[test]
fn test_authorize_owner_storage() {
    let env = silent_env();
    let owner = Address::generate(&env);
    let mut house = StakeHouse::new(&env);
    assert_eq!(house.record_authorization(true, true, owner), Ok(()));
    let owner_authorized: bool = house.owner_authorized;
    assert_eq!(owner_authorized, true);
}
