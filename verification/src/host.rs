//! The host values of `soroban_sdk` that the stake house works on.
//!
//! Addresses, allowance maps and participant vectors live in the Soroban host
//! and are opaque here. This module says what the crate assumes of them: a
//! model of what a map and a vector hold, and one thin function for each host
//! call the verified code makes, the calls into the asset gateway among them.
//! Nothing in this module is proved; everything outside it is proved from the
//! contracts stated here.
//!
//! The contracts speak of values of one host: what is handed to a function
//! together comes from the same `Env`, as all values of one invocation do. And
//! they leave aside the host's own limits on memory and computation, which end
//! an invocation wherever they are reached.

use crate::gateway::AmountReply;
use soroban_sdk::{Address, Env, IntoVal, Symbol, Val};
use vstd::prelude::*;

verus! {

/// `soroban_sdk::Env`, the handle to the host. It is only passed on.
#[verifier::external_type_specification]
#[verifier::external_body]
pub struct ExEnv(Env);

/// `soroban_sdk::Address`, an identifier of an account or a contract. Nothing
/// is read from an address but whether it is the same as another.
#[verifier::external_type_specification]
#[verifier::external_body]
pub struct ExAddress(Address);

/// `soroban_sdk::Map`, a map kept by the host.
#[verifier::external_type_specification]
#[verifier::external_body]
#[verifier::reject_recursive_types(K)]
#[verifier::reject_recursive_types(V)]
pub struct ExMap<K, V>(soroban_sdk::Map<K, V>);

/// `soroban_sdk::Vec`, a vector kept by the host.
#[verifier::external_type_specification]
#[verifier::external_body]
#[verifier::reject_recursive_types(T)]
pub struct ExVec<T>(soroban_sdk::Vec<T>);

/// A host map from `(owner, spender)` to the amount the spender may still move.
pub type AllowanceMap = soroban_sdk::Map<(Address, Address), i128>;

/// A host vector of addresses.
pub type AddressList = soroban_sdk::Vec<Address>;

/// What an allowance map holds: every `(owner, spender)` key whose value reads
/// back as an `i128`, with that value. The host does not promise that a map
/// handed in from elsewhere holds only such values; a key with any other value
/// counts as absent.
pub uninterp spec fn allowance_entries(map: AllowanceMap) -> Map<(Address, Address), i128>;

/// What an address vector holds, in order. The host does not promise that every
/// item of a vector handed in from elsewhere is an address; an item that does
/// not read back as one stands here as `None`.
pub uninterp spec fn address_items(list: AddressList) -> Seq<Option<Address>>;

/// `Map::new`: a fresh host map, which holds nothing.
#[verifier::external_body]
pub(crate) fn entries_new(env: &Env) -> (map: AllowanceMap)
    ensures
        allowance_entries(map) == (Map::<(Address, Address), i128>::empty()),
{
    AllowanceMap::new(env)
}

/// `Map::try_get`: the value stored under `(owner, spender)`. The host returns
/// a value only where the key is present, and the conversion to `i128` lets
/// through only values stored as one; both other outcomes are `None`, as
/// `allowance_entries` has it.
#[verifier::external_body]
pub(crate) fn entries_get(map: &AllowanceMap, owner: &Address, spender: &Address) -> (found:
    Option<i128>)
    ensures
        found == allowance_entries(*map).get((*owner, *spender)),
{
    map.try_get((owner.clone(), spender.clone())).ok().flatten()
}

/// `Map::set`: stores `amount` under `(owner, spender)`, replacing what was
/// stored under that key, and leaves every other key as it was.
#[verifier::external_body]
pub(crate) fn entries_set(map: &mut AllowanceMap, owner: &Address, spender: &Address, amount: i128)
    ensures
        allowance_entries(*final(map)) == allowance_entries(*old(map)).insert(
            (*owner, *spender),
            amount,
        ),
{
    map.set((owner.clone(), spender.clone()), amount);
}

/// `Map::remove`: takes the key `(owner, spender)` out of the map if it is
/// there, and leaves every other key as it was.
#[verifier::external_body]
pub(crate) fn entries_remove(map: &mut AllowanceMap, owner: &Address, spender: &Address)
    ensures
        allowance_entries(*final(map)) == allowance_entries(*old(map)).remove((*owner, *spender)),
{
    map.remove((owner.clone(), spender.clone()));
}

/// `Vec::new`: a fresh host vector, which holds nothing.
#[verifier::external_body]
pub(crate) fn items_new(env: &Env) -> (list: AddressList)
    ensures
        address_items(list) == Seq::<Option<Address>>::empty(),
{
    AddressList::new(env)
}

/// `Vec::push_back`: appends `item` behind the items already there.
#[verifier::external_body]
pub(crate) fn items_push(list: &mut AddressList, item: Address)
    ensures
        address_items(*final(list)) == address_items(*old(list)).push(Some(item)),
{
    list.push_back(item);
}

/// `Vec::len`: the number of items.
#[verifier::external_body]
pub(crate) fn items_len(list: &AddressList) -> (len: u32)
    ensures
        len == address_items(*list).len(),
{
    list.len()
}

/// `Vec::try_get`: the item at `index`. The host returns an item only for an
/// index below the length, and the conversion lets through only an address;
/// both other outcomes are `None`, as `address_items` has it.
#[verifier::external_body]
pub(crate) fn items_get(list: &AddressList, index: u32) -> (found: Option<Address>)
    ensures
        found == (if index < address_items(*list).len() {
            address_items(*list)[index as int]
        } else {
            None
        }),
{
    list.try_get(index).ok().flatten()
}

/// `==` on `Address`: the host compares what the two handles stand for. In
/// contracts two addresses are equal exactly when this comparison says so.
#[verifier::external_body]
pub(crate) fn same_address(left: &Address, right: &Address) -> (same: bool)
    ensures
        same == (*left == *right),
{
    left == right
}

/// `Ledger::sequence`: the sequence number of the ledger that is being closed.
/// It changes from one invocation to the next, so nothing is promised of it.
#[verifier::external_body]
pub(crate) fn ledger_sequence(env: &Env) -> u32 {
    env.ledger().sequence()
}

/// `Env::try_invoke_contract` on the function `balance` of the contract at
/// `gateway`, with `id` as its argument. Nothing is promised of the reply: it
/// is whatever that contract does.
#[verifier::external_body]
pub(crate) fn call_balance(env: &Env, gateway: &Address, id: &Address) -> AmountReply {
    let function = Symbol::new(env, "balance");
    let args = soroban_sdk::Vec::from_array(env, [id.to_val()]);
    match env.try_invoke_contract::<i128, soroban_sdk::Error>(gateway, &function, args) {
        Ok(Ok(amount)) => AmountReply::Amount(amount),
        Ok(Err(_)) => AmountReply::NotAnAmount,
        Err(_) => AmountReply::Failed,
    }
}

/// `Env::try_invoke_contract` on the function `allowance` of the contract at
/// `gateway`, with `from` and `spender` as its arguments. Nothing is promised
/// of the reply.
#[verifier::external_body]
pub(crate) fn call_allowance(
    env: &Env,
    gateway: &Address,
    from: &Address,
    spender: &Address,
) -> AmountReply {
    let function = Symbol::new(env, "allowance");
    let args = soroban_sdk::Vec::from_array(env, [from.to_val(), spender.to_val()]);
    match env.try_invoke_contract::<i128, soroban_sdk::Error>(gateway, &function, args) {
        Ok(Ok(amount)) => AmountReply::Amount(amount),
        Ok(Err(_)) => AmountReply::NotAnAmount,
        Err(_) => AmountReply::Failed,
    }
}

/// `Env::try_invoke_contract` on the function `transfer` of the contract at
/// `gateway`, with `from`, `to` and `amount` as its arguments. The result is
/// `true` where the call returned without a value, as a completed transfer
/// does, and `false` for every other outcome; which of the two comes is up to
/// that contract.
#[verifier::external_body]
pub(crate) fn call_transfer(
    env: &Env,
    gateway: &Address,
    from: &Address,
    to: &Address,
    amount: i128,
) -> bool {
    let function = Symbol::new(env, "transfer");
    let amount: Val = amount.into_val(env);
    let args = soroban_sdk::Vec::from_array(env, [from.to_val(), to.to_val(), amount]);
    match env.try_invoke_contract::<(), soroban_sdk::Error>(gateway, &function, args) {
        Ok(Ok(())) => true,
        Ok(Err(_)) => false,
        Err(_) => false,
    }
}

/// `Env::try_invoke_contract` on the function `approve` of the contract at
/// `gateway`, with `from`, `spender`, `amount` and `expiration_ledger` as its
/// arguments. The result is `true` where the call returned without a value, as
/// a recorded grant does, and `false` for every other outcome; which of the
/// two comes is up to that contract.
#[verifier::external_body]
pub(crate) fn call_approve(
    env: &Env,
    gateway: &Address,
    from: &Address,
    spender: &Address,
    amount: i128,
    expiration_ledger: u32,
) -> bool {
    let function = Symbol::new(env, "approve");
    let amount: Val = amount.into_val(env);
    let until: Val = expiration_ledger.into_val(env);
    let args = soroban_sdk::Vec::from_array(env, [from.to_val(), spender.to_val(), amount, until]);
    match env.try_invoke_contract::<(), soroban_sdk::Error>(gateway, &function, args) {
        Ok(Ok(())) => true,
        Ok(Err(_)) => false,
        Err(_) => false,
    }
}

} // verus!
