//! The allowance ledger: for each `(owner, spender)` pair, the amount the
//! spender may still move on the owner's behalf.

use crate::error::Error;
use crate::host::{
    allowance_entries, entries_get, entries_new, entries_remove, entries_set, AllowanceMap,
};
use soroban_sdk::{Address, Env};
use vstd::prelude::*;

verus! {

/// The amount recorded for `(owner, spender)`: zero where the pair has no
/// entry.
pub open spec fn allowance_of(
    entries: Map<(Address, Address), i128>,
    owner: Address,
    spender: Address,
) -> i128 {
    match entries.get((owner, spender)) {
        Some(amount) => amount,
        None => 0i128,
    }
}

/// What is left of the allowance of `(owner, spender)` once `amount` is taken
/// from it.
pub open spec fn remainder_of(
    entries: Map<(Address, Address), i128>,
    owner: Address,
    spender: Address,
    amount: i128,
) -> int {
    allowance_of(entries, owner, spender) - amount
}

/// The entries once `amount` is taken from the allowance of
/// `(owner, spender)`: a positive remainder replaces the entry, and with
/// nothing left the entry goes.
pub open spec fn after_consume(
    entries: Map<(Address, Address), i128>,
    owner: Address,
    spender: Address,
    amount: i128,
) -> Map<(Address, Address), i128> {
    let left = remainder_of(entries, owner, spender, amount);
    if left > 0 {
        entries.insert((owner, spender), left as i128)
    } else {
        entries.remove((owner, spender))
    }
}

/// The outcome of taking `amount` from the allowance of `(owner, spender)`:
/// an allowance below `amount` does not cover it, and a remainder that is no
/// amount any more, as a negative `amount` can leave it, cannot be recorded.
pub open spec fn consume_outcome(
    entries: Map<(Address, Address), i128>,
    owner: Address,
    spender: Address,
    amount: i128,
) -> Result<(), Error> {
    if allowance_of(entries, owner, spender) < amount {
        Err(Error::InsufficientAllowance)
    } else if remainder_of(entries, owner, spender, amount) > i128::MAX {
        Err(Error::AmountOverflow)
    } else {
        Ok(())
    }
}

/// The allowances of a stake house, kept in one host map.
pub struct AllowanceLedger {
    /// The host map that holds the entries. It is stored and loaded as one
    /// value.
    pub entries: AllowanceMap,
}

impl View for AllowanceLedger {
    type V = Map<(Address, Address), i128>;

    open spec fn view(&self) -> Map<(Address, Address), i128> {
        allowance_entries(self.entries)
    }
}

impl AllowanceLedger {
    /// A ledger without entries.
    pub fn new(env: &Env) -> (ledger: AllowanceLedger)
        ensures
            ledger@ == (Map::<(Address, Address), i128>::empty()),
    {
        AllowanceLedger { entries: entries_new(env) }
    }

    /// Records that `spender` may move `amount` for `owner`. The amount
    /// replaces what was recorded for the pair; it is not added to it. Only the
    /// authenticated owner may do this.
    pub fn set_allowance(
        &mut self,
        owner_authenticated: bool,
        owner: &Address,
        spender: &Address,
        amount: i128,
    ) -> (outcome: Result<(), Error>)
        ensures
            owner_authenticated ==> outcome is Ok,
            owner_authenticated ==> final(self)@ == old(self)@.insert((*owner, *spender), amount),
            !owner_authenticated ==> outcome matches Err(Error::Unauthenticated),
            !owner_authenticated ==> final(self)@ == old(self)@,
    {
        if !owner_authenticated {
            return Err(Error::Unauthenticated);
        }
        entries_set(&mut self.entries, owner, spender, amount);
        Ok(())
    }

    /// The amount `spender` may still move for `owner`; zero where nothing is
    /// recorded.
    pub fn get_allowance(&self, owner: &Address, spender: &Address) -> (amount: i128)
        ensures
            amount == allowance_of(self@, *owner, *spender),
    {
        match entries_get(&self.entries, owner, spender) {
            Some(amount) => amount,
            None => 0,
        }
    }

    /// Takes `amount` from what `spender` may move for `owner`. An allowance
    /// below `amount` is refused. Otherwise a positive remainder is recorded in
    /// place of the old amount, and an allowance used up leaves no entry
    /// behind.
    pub fn consume(
        &mut self,
        owner: &Address,
        spender: &Address,
        amount: i128,
    ) -> (outcome: Result<(), Error>)
        ensures
            outcome == consume_outcome(old(self)@, *owner, *spender, amount),
            outcome is Ok ==> final(self)@ == after_consume(old(self)@, *owner, *spender, amount),
            outcome is Err ==> final(self)@ == old(self)@,
    {
        let current: i128 = self.get_allowance(owner, spender);
        if current < amount {
            return Err(Error::InsufficientAllowance);
        }
        match current.checked_sub(amount) {
            None => Err(Error::AmountOverflow),
            Some(left) => {
                if left > 0 {
                    entries_set(&mut self.entries, owner, spender, left);
                } else {
                    entries_remove(&mut self.entries, owner, spender);
                }
                Ok(())
            },
        }
    }
}

} // verus!
