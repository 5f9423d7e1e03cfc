//! The stake house proper: who has joined, and which owner has authorized the
//! house to move the asset.

use crate::error::Error;
use crate::gateway::{completion_outcome, reply_completion};
use crate::host::{
    address_items, call_approve, items_new, items_push, ledger_sequence, same_address, AddressList,
};
use soroban_sdk::{Address, Env};
use vstd::prelude::*;

verus! {

/// The amount that an owner grants the house at the asset gateway when
/// authorizing it, in the smallest unit of the asset. It is a fixed policy of
/// the house and depends on nothing the house holds.
pub const OWNER_GRANT_AMOUNT: i128 = 1_000_000_000;

/// For how many ledgers after the authorization that grant stays valid.
pub const OWNER_GRANT_LEDGERS: u32 = 17_280;

/// The last ledger on which a grant made at ledger `sequence` is valid: the
/// fixed number of ledgers later, or the last ledger there is.
pub open spec fn grant_expiry(sequence: u32) -> u32 {
    if sequence + OWNER_GRANT_LEDGERS > u32::MAX {
        u32::MAX
    } else {
        (sequence + OWNER_GRANT_LEDGERS) as u32
    }
}

/// The outcome of an authorization, by whether the owner was authenticated and
/// whether the gateway recorded the grant.
pub open spec fn authorization_outcome(
    owner_authenticated: bool,
    granted: bool,
) -> Result<(), Error> {
    if !owner_authenticated {
        Err(Error::Unauthenticated)
    } else {
        completion_outcome(granted)
    }
}

/// The last ledger on which a grant made at ledger `sequence` is valid.
pub fn grant_expiration(sequence: u32) -> (expiration: u32)
    ensures
        expiration == grant_expiry(sequence),
{
    match sequence.checked_add(OWNER_GRANT_LEDGERS) {
        Some(expiration) => expiration,
        None => u32::MAX,
    }
}

/// What a stake house holds.
pub struct StakeHouseView {
    /// Everyone who joined, in the order of joining. An item of the host
    /// vector that is not an address stands as `None`; `join` never adds one.
    pub participants: Seq<Option<Address>>,
    /// Whether an owner has authorized the house.
    pub owner_authorized: bool,
    /// The owner that the last authorization recorded.
    pub owner: Option<Address>,
}

impl StakeHouseView {
    /// The house once `user` has joined: `user` stands behind all who were
    /// there, whether or not it was among them.
    pub open spec fn joined(self, user: Address) -> StakeHouseView {
        StakeHouseView { participants: self.participants.push(Some(user)), ..self }
    }

    /// Whether `owner` is the owner who authorized the house: the house is
    /// authorized and the recorded owner is `owner`.
    pub open spec fn authorizes(self, owner: Address) -> bool {
        self.owner_authorized && self.owner == Some(owner)
    }

    /// The house once `owner` has authorized it, whoever was recorded before.
    pub open spec fn authorized_by(self, owner: Address) -> StakeHouseView {
        StakeHouseView { owner_authorized: true, owner: Some(owner), ..self }
    }
}

/// The participants of a stake house and the authorization of its owner.
///
/// A participant is never removed, and an address that joins again is listed
/// again. The authorization is set by the handshake of `authorize_owner` and
/// is never taken back.
pub struct StakeHouse {
    /// Everyone who joined, in the order of joining.
    pub participants: AddressList,
    /// Whether an owner has authorized the house.
    pub owner_authorized: bool,
    /// The owner that the last authorization recorded.
    pub owner: Option<Address>,
}

impl View for StakeHouse {
    type V = StakeHouseView;

    open spec fn view(&self) -> StakeHouseView {
        StakeHouseView {
            participants: address_items(self.participants),
            owner_authorized: self.owner_authorized,
            owner: self.owner,
        }
    }
}

impl StakeHouse {
    /// A house that nobody has joined and no owner has authorized.
    pub fn new(env: &Env) -> (house: StakeHouse)
        ensures
            house@.participants == Seq::<Option<Address>>::empty(),
            !house@.owner_authorized,
            house@.owner is None,
    {
        StakeHouse { participants: items_new(env), owner_authorized: false, owner: None }
    }

    /// Adds `user` to the participants. Nothing is checked: an address that
    /// has joined before is added once more.
    pub fn join(&mut self, user: Address)
        ensures
            final(self)@ == old(self)@.joined(user),
    {
        items_push(&mut self.participants, user);
    }

    /// The participants in the order of joining.
    pub fn get_participants(&self) -> (list: &AddressList)
        ensures
            address_items(*list) == self@.participants,
    {
        &self.participants
    }

    /// Whether `owner` is the owner who authorized the house.
    pub fn is_owner_authorized(&self, owner: &Address) -> (authorized: bool)
        ensures
            authorized == self@.authorizes(*owner),
    {
        match &self.owner {
            Some(recorded) => self.owner_authorized && same_address(recorded, owner),
            None => false,
        }
    }

    /// The owner that the last authorization recorded, if there was one.
    pub fn get_owner(&self) -> (owner: Option<&Address>)
        ensures
            match owner {
                Some(recorded) => self@.owner == Some(*recorded),
                None => self@.owner is None,
            },
    {
        self.owner.as_ref()
    }

    /// Records the outcome of the handshake. Where the owner was authenticated
    /// and the gateway recorded the grant, the house is authorized and `owner`
    /// is its owner, whoever was recorded before; otherwise the house stays as
    /// it was.
    pub fn record_authorization(
        &mut self,
        owner_authenticated: bool,
        granted: bool,
        owner: Address,
    ) -> (outcome: Result<(), Error>)
        ensures
            outcome == authorization_outcome(owner_authenticated, granted),
            outcome is Ok ==> final(self)@ == old(self)@.authorized_by(owner),
            outcome is Err ==> final(self)@ == old(self)@,
    {
        if !owner_authenticated {
            return Err(Error::Unauthenticated);
        }
        match reply_completion(granted) {
            Ok(()) => {
                self.owner_authorized = true;
                self.owner = Some(owner);
                Ok(())
            },
            Err(error) => Err(error),
        }
    }

    /// The authorization handshake. The authenticated `owner` grants the house,
    /// whose own address is `house`, the right to move `OWNER_GRANT_AMOUNT` of
    /// the owner's funds at the gateway `token`, for `OWNER_GRANT_LEDGERS`
    /// ledgers from now. The grant runs from the owner to the house, never the
    /// other way. Once the gateway has recorded it, the house is authorized
    /// with `owner` as its owner. Doing it again does the same again.
    ///
    /// An owner who is not authenticated is refused before the gateway is
    /// called. Whether the gateway records the grant is up to the gateway; if
    /// it does not, the house stays as it was.
    pub fn authorize_owner(
        &mut self,
        env: &Env,
        owner_authenticated: bool,
        owner: Address,
        house: &Address,
        token: &Address,
    ) -> (outcome: Result<(), Error>)
        ensures
            !owner_authenticated ==> outcome matches Err(Error::Unauthenticated),
            owner_authenticated ==> (outcome is Ok || (outcome matches Err(
                Error::ExternalCallFailed,
            ))),
            outcome is Ok ==> final(self)@ == old(self)@.authorized_by(owner),
            outcome is Err ==> final(self)@ == old(self)@,
    {
        if !owner_authenticated {
            return Err(Error::Unauthenticated);
        }
        let expiration: u32 = grant_expiration(ledger_sequence(env));
        let granted: bool = call_approve(env, token, &owner, house, OWNER_GRANT_AMOUNT, expiration);
        self.record_authorization(true, granted, owner)
    }
}

/// An address that joins twice is listed twice: the list grows by two, both
/// new places hold the address, and everyone who was listed stays where they
/// were.
pub proof fn lemma_join_twice_lists_twice(house: StakeHouseView, user: Address)
    ensures
        house.joined(user).joined(user).participants.len() == house.participants.len() + 2,
        house.joined(user).joined(user).participants[house.participants.len() as int] == Some(
            user,
        ),
        house.joined(user).joined(user).participants[house.participants.len() as int + 1] == Some(
            user,
        ),
        house.joined(user).joined(user).participants.take(house.participants.len() as int)
            == house.participants,
{
}

/// After `owner` has authorized the house, `owner` is authorized and no other
/// address is.
pub proof fn lemma_only_the_owner_is_authorized(
    house: StakeHouseView,
    owner: Address,
    other: Address,
)
    ensures
        house.authorized_by(owner).authorizes(owner),
        other != owner ==> !house.authorized_by(owner).authorizes(other),
{
}

/// Authorization is never taken back: neither a participant who joins nor a
/// later authorization leaves the house unauthorized.
pub proof fn lemma_authorization_stays(house: StakeHouseView, user: Address, owner: Address)
    requires
        house.owner_authorized,
    ensures
        house.joined(user).owner_authorized,
        house.authorized_by(owner).owner_authorized,
{
}

} // verus!
