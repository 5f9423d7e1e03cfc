//! How a pool amount is divided among the participants by the balance each of
//! them holds at the asset gateway.
//!
//! Only a participant with a positive balance takes part. With `total` the sum
//! of those balances, a participant holding `balance` receives
//! `balance * amount * (365 / 30) / total / 365`, every division dropping the
//! fraction. What the rounding leaves over stays with the distributing account.

use crate::error::Error;
use vstd::prelude::*;

verus! {

/// The days of the year the rate is stated for.
pub const DAYS_PER_YEAR: i128 = 365;

/// The whole accrual periods of thirty days in such a year.
pub const PERIODS_PER_YEAR: i128 = 12;

/// The quotient of `dividend` by a positive `divisor` with the fraction
/// dropped, so that the result moves toward zero.
pub open spec fn truncated_quotient(dividend: int, divisor: int) -> int {
    if dividend >= 0 {
        dividend / divisor
    } else {
        -((-dividend) / divisor)
    }
}

/// What a balance counts for in the total: itself where it is positive,
/// nothing otherwise.
pub open spec fn eligible_part(balance: i128) -> int {
    if balance > 0 {
        balance as int
    } else {
        0
    }
}

/// The sum of the positive balances.
pub open spec fn eligible_total(balances: Seq<i128>) -> int
    decreases balances.len(),
{
    if balances.len() == 0 {
        0
    } else {
        eligible_total(balances.drop_last()) + eligible_part(balances.last())
    }
}

/// The numerator of a share: the balance times the pool amount times the
/// periods of a year.
pub open spec fn weighted_amount(balance: i128, amount: i128) -> int {
    balance * amount * (365int / 30int)
}

/// Whether the numerator of a share can be held in an `i128`.
pub open spec fn weighted_amount_fits(balance: i128, amount: i128) -> bool {
    i128::MIN <= weighted_amount(balance, amount) <= i128::MAX
}

/// The share of a participant holding `balance`, out of a pool of `amount`
/// divided over a positive `total`.
pub open spec fn share_of(balance: i128, amount: i128, total: int) -> int {
    truncated_quotient(truncated_quotient(weighted_amount(balance, amount), total), 365)
}

/// The outcome of computing one share.
pub open spec fn share_outcome(balance: i128, amount: i128, total: i128) -> Result<i128, Error> {
    if total <= 0 {
        Err(Error::NoEligibleParticipants)
    } else if !weighted_amount_fits(balance, amount) {
        Err(Error::AmountOverflow)
    } else {
        Ok(share_of(balance, amount, total as int) as i128)
    }
}

/// What each participant receives, in the order of `balances`: `None` for a
/// balance that is not positive.
pub open spec fn shares_of(balances: Seq<i128>, amount: i128) -> Seq<Option<i128>> {
    Seq::new(
        balances.len(),
        |i: int|
            if balances[i] > 0 {
                Some(share_of(balances[i], amount, eligible_total(balances)) as i128)
            } else {
                None
            },
    )
}

/// Whether some participant who takes part has a share whose numerator cannot
/// be held in an `i128`.
pub open spec fn some_share_overflows(balances: Seq<i128>, amount: i128) -> bool {
    exists|i: int|
        0 <= i < balances.len() && #[trigger] balances[i] > 0 && !weighted_amount_fits(
            balances[i],
            amount,
        )
}

/// The outcome of dividing `amount` among participants with these balances.
pub open spec fn distribution_outcome(
    balances: Seq<i128>,
    amount: i128,
) -> Result<Seq<Option<i128>>, Error> {
    if eligible_total(balances) > i128::MAX {
        Err(Error::AmountOverflow)
    } else if eligible_total(balances) <= 0 {
        Err(Error::NoEligibleParticipants)
    } else if some_share_overflows(balances, amount) {
        Err(Error::AmountOverflow)
    } else {
        Ok(shares_of(balances, amount))
    }
}

/// A computed distribution, seen as the sequence of its shares.
pub open spec fn shares_view(
    outcome: Result<Vec<Option<i128>>, Error>,
) -> Result<Seq<Option<i128>>, Error> {
    match outcome {
        Ok(shares) => Ok(shares@),
        Err(error) => Err(error),
    }
}

/// The total of the positive balances among the first `count` is what one more
/// balance adds to the total of those before it.
proof fn lemma_total_step(balances: Seq<i128>, count: int)
    requires
        0 <= count < balances.len(),
    ensures
        eligible_total(balances.take(count + 1)) == eligible_total(balances.take(count))
            + eligible_part(balances[count]),
{
    assert(balances.take(count + 1).drop_last() == balances.take(count));
}

/// The total never falls as more balances are taken in, and is never negative.
proof fn lemma_total_grows(balances: Seq<i128>, count: int)
    requires
        0 <= count <= balances.len(),
    ensures
        0 <= eligible_total(balances.take(count)) <= eligible_total(balances),
    decreases balances.len() - count,
{
    if count == balances.len() {
        assert(balances.take(count) == balances);
        lemma_total_nonnegative(balances);
    } else {
        lemma_total_step(balances, count);
        lemma_total_grows(balances, count + 1);
        lemma_total_nonnegative(balances.take(count));
    }
}

/// The total is never negative.
proof fn lemma_total_nonnegative(balances: Seq<i128>)
    ensures
        0 <= eligible_total(balances),
    decreases balances.len(),
{
    if balances.len() > 0 {
        lemma_total_nonnegative(balances.drop_last());
    }
}

/// The total is positive exactly when some balance is.
proof fn lemma_total_positive(balances: Seq<i128>)
    ensures
        eligible_total(balances) > 0 <==> exists|i: int|
            0 <= i < balances.len() && #[trigger] balances[i] > 0,
    decreases balances.len(),
{
    if balances.len() > 0 {
        let front = balances.drop_last();
        lemma_total_positive(front);
        lemma_total_nonnegative(front);
        if eligible_total(balances) > 0 {
            if balances.last() > 0 {
                assert(balances[balances.len() - 1] > 0);
            } else {
                let i = choose|i: int| 0 <= i < front.len() && #[trigger] front[i] > 0;
                assert(balances[i] > 0);
            }
        }
        if exists|i: int| 0 <= i < balances.len() && #[trigger] balances[i] > 0 {
            let i = choose|i: int| 0 <= i < balances.len() && #[trigger] balances[i] > 0;
            if i < front.len() {
                assert(front[i] > 0);
            }
        }
    }
}

/// A distribution is refused for want of participants exactly when no balance
/// is positive, whatever the amount.
pub proof fn lemma_refused_exactly_without_holders(balances: Seq<i128>, amount: i128)
    ensures
        distribution_outcome(balances, amount) matches Err(Error::NoEligibleParticipants)
            <==> forall|i: int| 0 <= i < balances.len() ==> #[trigger] balances[i] <= 0,
{
    lemma_total_positive(balances);
    lemma_total_nonnegative(balances);
    if exists|i: int| 0 <= i < balances.len() && #[trigger] balances[i] > 0 {
        let i = choose|i: int| 0 <= i < balances.len() && #[trigger] balances[i] > 0;
        assert(!(balances[i] <= 0));
    }
    if !(forall|i: int| 0 <= i < balances.len() ==> #[trigger] balances[i] <= 0) {
        let i = choose|i: int| 0 <= i < balances.len() && !(#[trigger] balances[i] <= 0);
        assert(balances[i] > 0);
    }
}

/// A participant without a positive balance is paid nothing, and every other
/// participant is paid the share of its balance in the total.
pub proof fn lemma_shares_follow_balances(balances: Seq<i128>, amount: i128, i: int)
    requires
        0 <= i < balances.len(),
        distribution_outcome(balances, amount) is Ok,
    ensures
        shares_of(balances, amount).len() == balances.len(),
        balances[i] <= 0 ==> shares_of(balances, amount)[i] is None,
        balances[i] > 0 ==> shares_of(balances, amount)[i] == Some(
            share_of(balances[i], amount, eligible_total(balances)) as i128,
        ),
        balances[i] > 0 ==> i128::MIN <= share_of(balances[i], amount, eligible_total(balances))
            <= i128::MAX,
{
    if balances[i] > 0 {
        assert(!some_share_overflows(balances, amount));
        assert(weighted_amount_fits(balances[i], amount));
        let total = eligible_total(balances);
        let weighted = weighted_amount(balances[i], amount);
        lemma_quotient_is_no_larger(weighted, total);
        lemma_quotient_is_no_larger(truncated_quotient(weighted, total), 365);
    }
}

/// Dividing by a positive number and dropping the fraction never moves a
/// number away from zero.
proof fn lemma_quotient_is_no_larger(dividend: int, divisor: int)
    requires
        divisor > 0,
    ensures
        dividend >= 0 ==> 0 <= truncated_quotient(dividend, divisor) <= dividend,
        dividend <= 0 ==> dividend <= truncated_quotient(dividend, divisor) <= 0,
{
    if dividend >= 0 {
        vstd::arithmetic::div_mod::lemma_div_pos_is_pos(dividend, divisor);
        vstd::arithmetic::div_mod::lemma_div_nonincreasing(dividend, divisor);
    } else {
        vstd::arithmetic::div_mod::lemma_div_pos_is_pos(-dividend, divisor);
        vstd::arithmetic::div_mod::lemma_div_nonincreasing(-dividend, divisor);
    }
}

/// The sum of the positive balances, or `None` where it cannot be held in an
/// `i128`.
pub fn eligible_sum(balances: &Vec<i128>) -> (sum: Option<i128>)
    ensures
        match sum {
            Some(total) => total == eligible_total(balances@),
            None => eligible_total(balances@) > i128::MAX,
        },
{
    let mut total: i128 = 0;
    let mut i: usize = 0;
    while i < balances.len()
        invariant
            0 <= i <= balances.len(),
            total == eligible_total(balances@.take(i as int)),
        decreases balances.len() - i,
    {
        let balance: i128 = balances[i];
        proof {
            lemma_total_step(balances@, i as int);
            lemma_total_grows(balances@, i + 1);
        }
        if balance > 0 {
            match total.checked_add(balance) {
                Some(next) => {
                    total = next;
                },
                None => {
                    return None;
                },
            }
        }
        i += 1;
    }
    proof {
        assert(balances@.take(i as int) == balances@);
    }
    Some(total)
}

/// The share of a participant holding `balance`, out of a pool of `amount`
/// divided over `total`. The product is formed before anything is divided. A
/// total that is not positive has nobody to share with, and a product that
/// leaves the range of `i128` is refused.
pub fn pool_share(balance: i128, amount: i128, total: i128) -> (share: Result<i128, Error>)
    ensures
        share == share_outcome(balance, amount, total),
{
    if total <= 0 {
        return Err(Error::NoEligibleParticipants);
    }
    assert(balance * amount * 12 == weighted_amount(balance, amount));
    let product: i128 = match balance.checked_mul(amount) {
        Some(product) => product,
        None => {
            return Err(Error::AmountOverflow);
        },
    };
    let weighted: i128 = match product.checked_mul(PERIODS_PER_YEAR) {
        Some(weighted) => weighted,
        None => {
            return Err(Error::AmountOverflow);
        },
    };
    Ok(weighted / total / DAYS_PER_YEAR)
}

/// Divides `amount` among participants with these balances. The result has one
/// entry for each balance, in order: the share of a participant with a
/// positive balance, `None` for every other. Nobody with a positive balance is
/// `NoEligibleParticipants`; a total or a product that leaves the range of
/// `i128` is `AmountOverflow`.
pub fn distribution_shares(
    balances: &Vec<i128>,
    amount: i128,
) -> (outcome: Result<Vec<Option<i128>>, Error>)
    ensures
        shares_view(outcome) == distribution_outcome(balances@, amount),
{
    let total: i128 = match eligible_sum(balances) {
        Some(total) => total,
        None => {
            return Err(Error::AmountOverflow);
        },
    };
    if total <= 0 {
        return Err(Error::NoEligibleParticipants);
    }
    let mut shares: Vec<Option<i128>> = Vec::new();
    let mut i: usize = 0;
    while i < balances.len()
        invariant
            0 <= i <= balances.len(),
            total == eligible_total(balances@),
            total > 0,
            shares@ == shares_of(balances@, amount).take(i as int),
            forall|j: int|
                0 <= j < i && #[trigger] balances@[j] > 0 ==> weighted_amount_fits(
                    balances@[j],
                    amount,
                ),
        decreases balances.len() - i,
    {
        let balance: i128 = balances[i];
        let entry: Option<i128> = if balance > 0 {
            match pool_share(balance, amount, total) {
                Ok(share) => Some(share),
                Err(error) => {
                    assert(balances@[i as int] > 0);
                    return Err(Error::AmountOverflow);
                },
            }
        } else {
            None
        };
        shares.push(entry);
        proof {
            assert(shares@ == shares_of(balances@, amount).take(i + 1));
        }
        i += 1;
    }
    proof {
        assert(shares_of(balances@, amount).take(i as int) == shares_of(balances@, amount));
    }
    Ok(shares)
}

} // verus!
