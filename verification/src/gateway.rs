//! The asset gateway: the token contract that holds the balances and moves the
//! asset.
//!
//! The stake house owns none of the gateway's state. Each call goes to the
//! contract at the gateway address and may be refused there, so nothing is
//! known of a reply before it is there. This module holds what the stake house
//! makes of a reply once it has one.

use crate::error::Error;
use vstd::prelude::*;

verus! {

/// What came back from a gateway function that reports an amount.
#[derive(Clone, Copy, Debug, PartialEq, Eq, Structural)]
pub enum AmountReply {
    /// The gateway answered with this amount.
    Amount(i128),
    /// The gateway answered with a value that is not an amount.
    NotAnAmount,
    /// The call did not succeed.
    Failed,
}

/// The amount that a reply stands for: an answer that is not an amount counts
/// as zero, and a failed call is an error.
pub open spec fn amount_outcome(reply: AmountReply) -> Result<i128, Error> {
    match reply {
        AmountReply::Amount(amount) => Ok(amount),
        AmountReply::NotAnAmount => Ok(0i128),
        AmountReply::Failed => Err(Error::ExternalCallFailed),
    }
}

/// The outcome of a gateway function that moves or grants: done, or an error.
pub open spec fn completion_outcome(completed: bool) -> Result<(), Error> {
    if completed {
        Ok(())
    } else {
        Err(Error::ExternalCallFailed)
    }
}

/// Whether an amount reported by the gateway covers `amount`; `shortfall` is
/// the error where it does not.
pub open spec fn cover_outcome(
    reply: AmountReply,
    amount: i128,
    shortfall: Error,
) -> Result<(), Error> {
    match amount_outcome(reply) {
        Err(error) => Err(error),
        Ok(reported) => if reported < amount {
            Err(shortfall)
        } else {
            Ok(())
        },
    }
}

/// The amount that a reply stands for.
pub fn reply_amount(reply: AmountReply) -> (outcome: Result<i128, Error>)
    ensures
        outcome == amount_outcome(reply),
{
    match reply {
        AmountReply::Amount(amount) => Ok(amount),
        AmountReply::NotAnAmount => Ok(0),
        AmountReply::Failed => Err(Error::ExternalCallFailed),
    }
}

/// The outcome of a gateway function that moves or grants.
pub fn reply_completion(completed: bool) -> (outcome: Result<(), Error>)
    ensures
        outcome == completion_outcome(completed),
{
    if completed {
        Ok(())
    } else {
        Err(Error::ExternalCallFailed)
    }
}

/// Checks that the amount the gateway reported covers `amount`, and fails with
/// `shortfall` where it is less.
pub fn reply_covers(
    reply: AmountReply,
    amount: i128,
    shortfall: Error,
) -> (outcome: Result<(), Error>)
    ensures
        outcome == cover_outcome(reply, amount, shortfall),
{
    let reported: i128 = match reply_amount(reply) {
        Ok(reported) => reported,
        Err(error) => {
            return Err(error);
        },
    };
    if reported < amount {
        Err(shortfall)
    } else {
        Ok(())
    }
}

} // verus!
