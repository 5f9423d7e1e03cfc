//! The contract: the stake house, the allowance ledger and the asset gateway
//! together, as one state on which every operation works.
//!
//! The state is a plain value. Whoever runs the contract loads it before an
//! operation and stores it afterwards; an operation that returns an error has
//! changed nothing, so there is nothing to undo. Authentication is the host's
//! work as well: an operation that has to be backed by an address is told as a
//! `bool` whether the host has authenticated that address.

use crate::distribution::{distribution_outcome, distribution_shares, shares_view};
use crate::error::Error;
use crate::gateway::{reply_amount, reply_completion, reply_covers, AmountReply};
use crate::host::{
    address_items, call_allowance, call_approve, call_balance, call_transfer, items_get, items_len,
    AddressList,
};
use crate::ledger::{after_consume, allowance_of, consume_outcome, AllowanceLedger};
use crate::stake_house::{StakeHouse, StakeHouseView};
use soroban_sdk::{Address, Env};
use vstd::prelude::*;

verus! {

/// The strkey of the gateway that a contract works with until
/// `initialize_xlm_sac` names another: the asset contract of the native asset.
pub const XLM_SAC_CONTRACT_ID: &'static str =
    "CDLZFC3SYJYDZT7K67VZ75HPJVIEUVNIXF47ZG2FB2RMQQVU2HHGCYSC";

/// What a distribution read at the gateway and what it paid.
pub struct Payout {
    /// The balance read for each participant, in the order of the
    /// participants; zero for an item of the list that is not an address.
    pub balances: Vec<i128>,
    /// What each participant was paid: `None` for one who took no part.
    pub shares: Vec<Option<i128>>,
}

/// What the contract holds.
pub struct ContractView {
    /// The participants and the owner's authorization.
    pub house: StakeHouseView,
    /// The allowance recorded for each `(owner, spender)` pair that has one.
    pub allowances: Map<(Address, Address), i128>,
    /// The address of the asset gateway.
    pub xlm_sac: Address,
    /// Whether `initialize_xlm_sac` has set that address.
    pub xlm_sac_initialized: bool,
}

impl ContractView {
    /// The amount `spender` may still move for `owner`; zero where nothing is
    /// recorded.
    pub open spec fn allowance(self, owner: Address, spender: Address) -> i128 {
        allowance_of(self.allowances, owner, spender)
    }

    /// The contract once `user` has joined.
    pub open spec fn joined(self, user: Address) -> ContractView {
        ContractView { house: self.house.joined(user), ..self }
    }

    /// The contract once `owner` has authorized the house.
    pub open spec fn authorized_by(self, owner: Address) -> ContractView {
        ContractView { house: self.house.authorized_by(owner), ..self }
    }

    /// The contract once its gateway is set to `xlm_sac_address`.
    pub open spec fn initialized_with(self, xlm_sac_address: Address) -> ContractView {
        ContractView { xlm_sac: xlm_sac_address, xlm_sac_initialized: true, ..self }
    }

    /// The contract once `owner` has let `spender` move `amount`: the amount
    /// replaces what was recorded for the pair.
    pub open spec fn approved(
        self,
        owner: Address,
        spender: Address,
        amount: i128,
    ) -> ContractView {
        ContractView { allowances: self.allowances.insert((owner, spender), amount), ..self }
    }

    /// Whether the contract lets a transfer of `amount` by `spender` from the
    /// funds of `from` through to the gateway, by what it knows itself: the
    /// spender has to be authenticated, and the allowance recorded for
    /// `(from, spender)` has to cover `amount`.
    pub open spec fn admits(
        self,
        spender_authenticated: bool,
        spender: Address,
        from: Address,
        amount: i128,
    ) -> Result<(), Error> {
        if !spender_authenticated {
            Err(Error::Unauthenticated)
        } else {
            consume_outcome(self.allowances, from, spender, amount)
        }
    }

    /// The contract once `spender` has moved `amount` of the funds of `from`:
    /// the amount is taken from the allowance of the pair.
    pub open spec fn transferred(
        self,
        spender: Address,
        from: Address,
        amount: i128,
    ) -> ContractView {
        ContractView { allowances: after_consume(self.allowances, from, spender, amount), ..self }
    }
}

/// The state of the contract.
pub struct Contract {
    /// The participants and the owner's authorization.
    pub house: StakeHouse,
    /// The allowances.
    pub allowances: AllowanceLedger,
    /// The address of the asset gateway.
    pub xlm_sac: Address,
    /// Whether `initialize_xlm_sac` has set that address.
    pub xlm_sac_initialized: bool,
}

impl View for Contract {
    type V = ContractView;

    open spec fn view(&self) -> ContractView {
        ContractView {
            house: self.house@,
            allowances: self.allowances@,
            xlm_sac: self.xlm_sac,
            xlm_sac_initialized: self.xlm_sac_initialized,
        }
    }
}

impl Contract {
    /// A contract that nobody has joined, with no allowance and no authorized
    /// owner. It works with the gateway at `default_xlm_sac` until
    /// `initialize_xlm_sac` names another.
    pub fn new(env: &Env, default_xlm_sac: Address) -> (contract: Contract)
        ensures
            contract@.house.participants == Seq::<Option<Address>>::empty(),
            !contract@.house.owner_authorized,
            contract@.house.owner is None,
            contract@.allowances == (Map::<(Address, Address), i128>::empty()),
            contract@.xlm_sac == default_xlm_sac,
            !contract@.xlm_sac_initialized,
    {
        Contract {
            house: StakeHouse::new(env),
            allowances: AllowanceLedger::new(env),
            xlm_sac: default_xlm_sac,
            xlm_sac_initialized: false,
        }
    }

    /// Adds `user` to the participants; an address that has joined before is
    /// added once more.
    pub fn join(&mut self, user: Address)
        ensures
            final(self)@ == old(self)@.joined(user),
    {
        self.house.join(user);
    }

    /// Whether `owner` is the owner who authorized the house.
    pub fn is_owner_authorized(&self, owner: &Address) -> (authorized: bool)
        ensures
            authorized == self@.house.authorizes(*owner),
    {
        self.house.is_owner_authorized(owner)
    }

    /// The participants in the order of joining.
    pub fn get_participants(&self) -> (list: &AddressList)
        ensures
            address_items(*list) == self@.house.participants,
    {
        self.house.get_participants()
    }

    /// The owner that the last authorization recorded, if there was one.
    pub fn get_owner(&self) -> (owner: Option<&Address>)
        ensures
            match owner {
                Some(recorded) => self@.house.owner == Some(*recorded),
                None => self@.house.owner is None,
            },
    {
        self.house.get_owner()
    }

    /// The authorization handshake at the contract's own gateway: the
    /// authenticated `owner` grants the contract, whose own address is
    /// `contract`, the right to move the owner's funds, and the house records
    /// `owner` as its authorized owner.
    ///
    /// An owner who is not authenticated is refused before the gateway is
    /// called. Whether the gateway records the grant is up to the gateway; if
    /// it does not, the contract stays as it was.
    pub fn authorize_owner(
        &mut self,
        env: &Env,
        owner_authenticated: bool,
        owner: Address,
        contract: &Address,
    ) -> (outcome: Result<(), Error>)
        ensures
            !owner_authenticated ==> outcome matches Err(Error::Unauthenticated),
            owner_authenticated ==> (outcome is Ok || (outcome matches Err(
                Error::ExternalCallFailed,
            ))),
            outcome is Ok ==> final(self)@ == old(self)@.authorized_by(owner),
            outcome is Err ==> final(self)@ == old(self)@,
    {
        self.house.authorize_owner(env, owner_authenticated, owner, contract, &self.xlm_sac)
    }

    /// Sets the address of the asset gateway. This can be done once: a second
    /// attempt is refused and changes nothing.
    pub fn initialize_xlm_sac(&mut self, xlm_sac_address: Address) -> (outcome: Result<(), Error>)
        ensures
            old(self)@.xlm_sac_initialized ==> outcome matches Err(Error::AlreadyInitialized),
            old(self)@.xlm_sac_initialized ==> final(self)@ == old(self)@,
            !old(self)@.xlm_sac_initialized ==> outcome is Ok,
            !old(self)@.xlm_sac_initialized ==> final(self)@ == old(self)@.initialized_with(
                xlm_sac_address,
            ),
    {
        if self.xlm_sac_initialized {
            return Err(Error::AlreadyInitialized);
        }
        self.xlm_sac = xlm_sac_address;
        self.xlm_sac_initialized = true;
        Ok(())
    }

    /// The address of the asset gateway.
    pub fn get_xlm_sac_address(&self) -> (address: &Address)
        ensures
            *address == self@.xlm_sac,
    {
        &self.xlm_sac
    }

    /// The balance that the gateway reports for `address`. An answer that is
    /// not an amount counts as zero. The amount is whatever the gateway says;
    /// the only error is a call that did not succeed.
    pub fn get_xlm_balance(&self, env: &Env, address: &Address) -> (outcome: Result<i128, Error>)
        ensures
            outcome matches Err(error) ==> error == Error::ExternalCallFailed,
    {
        reply_amount(call_balance(env, &self.xlm_sac, address))
    }

    /// The balance that the gateway reports for `address`.
    pub fn balance_of(&self, env: &Env, address: &Address) -> (outcome: Result<i128, Error>)
        ensures
            outcome matches Err(error) ==> error == Error::ExternalCallFailed,
    {
        self.get_xlm_balance(env, address)
    }

    /// Asks the gateway to move `amount` from `from` to `to`. Whether it does
    /// is up to the gateway; the only error is a call that did not succeed.
    pub fn transfer_xlm(
        &self,
        env: &Env,
        from: &Address,
        to: &Address,
        amount: i128,
    ) -> (outcome: Result<(), Error>)
        ensures
            outcome matches Err(error) ==> error == Error::ExternalCallFailed,
    {
        reply_completion(call_transfer(env, &self.xlm_sac, from, to, amount))
    }

    /// Asks the gateway to record that `spender` may move `amount` of the
    /// funds of `from` until the ledger `expiration_ledger`. Whether it does
    /// is up to the gateway; the only error is a call that did not succeed.
    pub fn approve_xlm(
        &self,
        env: &Env,
        from: &Address,
        spender: &Address,
        amount: i128,
        expiration_ledger: u32,
    ) -> (outcome: Result<(), Error>)
        ensures
            outcome matches Err(error) ==> error == Error::ExternalCallFailed,
    {
        reply_completion(
            call_approve(env, &self.xlm_sac, from, spender, amount, expiration_ledger),
        )
    }

    /// The allowance that the gateway itself reports for `spender` on the
    /// funds of `from`. An answer that is not an amount counts as zero. The
    /// only error is a call that did not succeed.
    pub fn get_xlm_allowance(
        &self,
        env: &Env,
        from: &Address,
        spender: &Address,
    ) -> (outcome: Result<i128, Error>)
        ensures
            outcome matches Err(error) ==> error == Error::ExternalCallFailed,
    {
        reply_amount(call_allowance(env, &self.xlm_sac, from, spender))
    }

    /// The amount `spender` may still move for `owner` by the contract's own
    /// ledger; zero where nothing is recorded.
    pub fn allowance(&self, owner: &Address, spender: &Address) -> (amount: i128)
        ensures
            amount == self@.allowance(*owner, *spender),
    {
        self.allowances.get_allowance(owner, spender)
    }

    /// Lets `spender` move up to `amount` of the funds of the authenticated
    /// `owner`. The grant is made at the gateway, valid until the ledger
    /// `expiration_ledger`, and recorded in the contract's own ledger, where
    /// `amount` replaces what was recorded for the pair.
    ///
    /// An owner who is not authenticated is refused before the gateway is
    /// called. Whether the gateway records the grant is up to the gateway; if
    /// it does not, the ledger stays as it was.
    pub fn approve(
        &mut self,
        env: &Env,
        owner_authenticated: bool,
        owner: &Address,
        spender: &Address,
        amount: i128,
        expiration_ledger: u32,
    ) -> (outcome: Result<(), Error>)
        ensures
            !owner_authenticated ==> outcome matches Err(Error::Unauthenticated),
            owner_authenticated ==> (outcome is Ok || (outcome matches Err(
                Error::ExternalCallFailed,
            ))),
            outcome is Ok ==> final(self)@ == old(self)@.approved(*owner, *spender, amount),
            outcome is Ok ==> final(self)@.allowance(*owner, *spender) == amount,
            outcome is Err ==> final(self)@ == old(self)@,
    {
        if !owner_authenticated {
            return Err(Error::Unauthenticated);
        }
        match self.approve_xlm(env, owner, spender, amount, expiration_ledger) {
            Ok(()) => self.allowances.set_allowance(true, owner, spender, amount),
            Err(error) => Err(error),
        }
    }

    /// Whether a transfer by `spender` from the funds of `from` is let through
    /// to the gateway, by what the contract itself knows. Nothing is changed
    /// and the gateway is not called.
    pub fn admit_transfer(
        &self,
        spender_authenticated: bool,
        spender: &Address,
        from: &Address,
        amount: i128,
    ) -> (outcome: Result<(), Error>)
        ensures
            outcome == self@.admits(spender_authenticated, *spender, *from, amount),
    {
        if !spender_authenticated {
            return Err(Error::Unauthenticated);
        }
        let current: i128 = self.allowances.get_allowance(from, spender);
        if current < amount {
            return Err(Error::InsufficientAllowance);
        }
        match current.checked_sub(amount) {
            Some(_) => Ok(()),
            None => Err(Error::AmountOverflow),
        }
    }

    /// Moves `amount` from `from` to `to` on the word of the authenticated
    /// `spender`, against the allowance that `from` gave it.
    ///
    /// The contract's own ledger is asked first: a spender who is not
    /// authenticated, or an allowance below `amount`, is refused before the
    /// gateway is called. Then the gateway has to report an allowance of its
    /// own that covers `amount`, and has to make the transfer. Only after that
    /// the amount is taken from the allowance in the ledger.
    ///
    /// Whatever the outcome, only the ledger can change, and with an error
    /// nothing changes at all.
    pub fn transfer_from(
        &mut self,
        env: &Env,
        spender_authenticated: bool,
        spender: &Address,
        from: &Address,
        to: &Address,
        amount: i128,
    ) -> (outcome: Result<(), Error>)
        ensures
            old(self)@.admits(spender_authenticated, *spender, *from, amount) is Err ==> outcome
                == old(self)@.admits(spender_authenticated, *spender, *from, amount),
            old(self)@.admits(spender_authenticated, *spender, *from, amount) is Ok ==> (outcome
                is Ok || (outcome matches Err(Error::InsufficientExternalAllowance))
                || (outcome matches Err(Error::ExternalCallFailed))),
            outcome is Ok ==> final(self)@ == old(self)@.transferred(*spender, *from, amount),
            outcome is Err ==> final(self)@ == old(self)@,
    {
        match self.admit_transfer(spender_authenticated, spender, from, amount) {
            Ok(()) => {},
            Err(error) => {
                return Err(error);
            },
        }
        let reported: AmountReply = call_allowance(env, &self.xlm_sac, from, spender);
        match reply_covers(reported, amount, Error::InsufficientExternalAllowance) {
            Ok(()) => {},
            Err(error) => {
                return Err(error);
            },
        }
        match self.transfer_xlm(env, from, to, amount) {
            Ok(()) => {},
            Err(error) => {
                return Err(error);
            },
        }
        self.allowances.consume(from, spender, amount)
    }

    /// Divides `amount` from the funds of `from` among the participants, by
    /// the balance each holds at the gateway.
    ///
    /// The gateway is asked for the balance of `from`, which has to cover
    /// `amount`, and then once for the balance of each participant. From those
    /// balances the shares are computed as `distribution_shares` has them, and
    /// the gateway is asked to move each share from `from` to its participant,
    /// in the order of joining. An item of the list that is not an address
    /// counts as a balance of zero and is paid nothing.
    ///
    /// The contract's state is only read. What the gateway answers is up to the
    /// gateway; a call that does not succeed ends the distribution with
    /// `ExternalCallFailed`. Shares paid before that stay paid at the gateway
    /// until the caller gives up the whole invocation, as it does on every
    /// error.
    pub fn transfer_from_xlm_sac(
        &self,
        env: &Env,
        from: &Address,
        amount: i128,
    ) -> (outcome: Result<Payout, Error>)
        ensures
            outcome matches Ok(payout) ==> payout.balances@.len()
                == self@.house.participants.len(),
            outcome matches Ok(payout) ==> forall|i: int|
                0 <= i < payout.balances@.len() && (#[trigger] self@.house.participants[i]) is None
                    ==> payout.balances@[i] == 0,
            outcome matches Ok(payout) ==> shares_view(Ok(payout.shares)) == distribution_outcome(
                payout.balances@,
                amount,
            ),
            outcome matches Err(error) ==> error == Error::ExternalCallFailed || error
                == Error::InsufficientBalance || error == Error::NoEligibleParticipants || error
                == Error::AmountOverflow,
    {
        let held: AmountReply = call_balance(env, &self.xlm_sac, from);
        match reply_covers(held, amount, Error::InsufficientBalance) {
            Ok(()) => {},
            Err(error) => {
                return Err(error);
            },
        }
        let count: u32 = items_len(&self.house.participants);
        let mut balances: Vec<i128> = Vec::new();
        let mut i: u32 = 0;
        while i < count
            invariant
                0 <= i <= count,
                count == self@.house.participants.len(),
                balances@.len() == i,
                forall|j: int|
                    0 <= j < i && (#[trigger] self@.house.participants[j]) is None
                        ==> balances@[j] == 0,
            decreases count - i,
        {
            let balance: i128 = match items_get(&self.house.participants, i) {
                Some(user) => match self.get_xlm_balance(env, &user) {
                    Ok(balance) => balance,
                    Err(error) => {
                        return Err(error);
                    },
                },
                None => 0,
            };
            balances.push(balance);
            i += 1;
        }
        let shares: Vec<Option<i128>> = match distribution_shares(&balances, amount) {
            Ok(shares) => shares,
            Err(error) => {
                return Err(error);
            },
        };
        let mut k: u32 = 0;
        while k < count
            invariant
                0 <= k <= count,
                count == self@.house.participants.len(),
                shares@.len() == count,
            decreases count - k,
        {
            match items_get(&self.house.participants, k) {
                Some(user) => match shares[k as usize] {
                    Some(share) => {
                        match self.transfer_xlm(env, from, &user, share) {
                            Ok(()) => {},
                            Err(error) => {
                                return Err(error);
                            },
                        }
                    },
                    None => {},
                },
                None => {},
            }
            k += 1;
        }
        Ok(Payout { balances, shares })
    }
}

/// After an approval of `amount` the allowance of the pair is exactly
/// `amount`, whatever it was before; every other pair keeps its allowance, and
/// nothing but the allowances changes.
pub proof fn lemma_approve_sets_the_allowance(
    contract: ContractView,
    owner: Address,
    spender: Address,
    amount: i128,
    other_owner: Address,
    other_spender: Address,
)
    ensures
        contract.approved(owner, spender, amount).allowance(owner, spender) == amount,
        (other_owner, other_spender) != (owner, spender) ==> contract.approved(
            owner,
            spender,
            amount,
        ).allowance(other_owner, other_spender) == contract.allowance(other_owner, other_spender),
        contract.approved(owner, spender, amount).house == contract.house,
{
}

/// A transfer that the allowance covers leaves the difference as the
/// allowance where that is positive; where nothing is left the entry is gone
/// and the allowance reads zero. Every other pair keeps its allowance, and
/// nothing but the allowances changes. The difference has to be an amount
/// itself: a negative `amount` may push it out of range, and such a transfer
/// is refused.
pub proof fn lemma_transfer_takes_from_the_allowance(
    contract: ContractView,
    spender: Address,
    from: Address,
    amount: i128,
    other_owner: Address,
    other_spender: Address,
)
    requires
        amount <= contract.allowance(from, spender),
        contract.allowance(from, spender) - amount <= i128::MAX,
    ensures
        contract.admits(true, spender, from, amount) is Ok,
        (other_owner, other_spender) != (from, spender) ==> contract.transferred(
            spender,
            from,
            amount,
        ).allowance(other_owner, other_spender) == contract.allowance(other_owner, other_spender),
        contract.transferred(spender, from, amount).house == contract.house,
        contract.allowance(from, spender) - amount > 0 ==> contract.transferred(
            spender,
            from,
            amount,
        ).allowance(from, spender) == contract.allowance(from, spender) - amount,
        contract.allowance(from, spender) - amount <= 0 ==> !contract.transferred(
            spender,
            from,
            amount,
        ).allowances.contains_key((from, spender)),
        contract.allowance(from, spender) - amount <= 0 ==> contract.transferred(
            spender,
            from,
            amount,
        ).allowance(from, spender) == 0,
{
}

/// A transfer of more than the allowance recorded for `(from, spender)` is
/// refused with `InsufficientAllowance` by the contract itself, whatever the
/// gateway would say.
pub proof fn lemma_overdraw_is_refused(
    contract: ContractView,
    spender: Address,
    from: Address,
    amount: i128,
)
    requires
        amount > contract.allowance(from, spender),
    ensures
        contract.admits(true, spender, from, amount) matches Err(Error::InsufficientAllowance),
{
}

} // verus!
