//! The ways in which an operation of the stake house is refused.

use vstd::prelude::*;

verus! {

/// Why an operation was refused. A refused operation leaves the state it was
/// called on exactly as it found it.
#[derive(Clone, Copy, Debug, PartialEq, Eq, Structural)]
pub enum Error {
    /// The address that has to stand behind the operation was not
    /// authenticated.
    Unauthenticated,
    /// The allowance recorded in the ledger is below the amount asked for.
    InsufficientAllowance,
    /// The allowance that the asset gateway itself reports is below the amount
    /// asked for.
    InsufficientExternalAllowance,
    /// The gateway address was already set once.
    AlreadyInitialized,
    /// No participant holds a positive balance.
    NoEligibleParticipants,
    /// A call into the asset gateway did not succeed.
    ExternalCallFailed,
    /// The distributing account holds less than the amount to distribute.
    InsufficientBalance,
    /// An amount left the range of a signed 128-bit integer.
    AmountOverflow,
}

} // verus!
