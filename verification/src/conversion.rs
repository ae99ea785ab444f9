//! The conversion of points into tokens.
//!
//! A conversion chooses the rate, works out how many tokens the points are
//! worth, and debits the points. What it hands back is the amount that the mint
//! capability is then asked to credit. The debit is computed before the mint is
//! asked, so that a refusal of the mint can still veto the whole operation: the
//! host either keeps both the debit and the mint or neither.

use crate::error::ErrorCode;
use crate::points_ledger::{debit, debited};
use crate::rate_store::{resolve_rate, resolved_rate};
use crate::state::{CustomConversionRate, TokenInfo, UserPoints};
use vstd::prelude::*;

verus! {

/// Tokens that `points_amount` points are worth at `rate` points per token:
/// the quotient, rounded down. What is left over is dropped.
pub open spec fn token_amount(points_amount: u64, rate: u64) -> u64
    recommends
        rate > 0,
{
    points_amount / rate
}

/// The answer to a conversion of `points_amount` points of `user_points`.
///
/// The rate is chosen first, and a refusal there is final. A rate of zero is
/// refused next, then an amount that the balance does not cover. Otherwise the
/// answer is the amount of tokens to mint.
pub open spec fn conversion_result(
    default_rate: u64,
    user_points: UserPoints,
    points_amount: u64,
    custom_rate: Option<CustomConversionRate>,
) -> Result<u64, ErrorCode> {
    match resolved_rate(default_rate, custom_rate, user_points.owner) {
        Err(e) => Err(e),
        Ok(rate) => if rate == 0 {
            Err(ErrorCode::InvalidConversionRate)
        } else if user_points.amount < points_amount {
            Err(ErrorCode::InsufficientPoints)
        } else {
            Ok(token_amount(points_amount, rate))
        },
    }
}

/// The balance record after the conversion: debited where the conversion
/// succeeds, untouched where it is refused.
pub open spec fn points_after_conversion(
    default_rate: u64,
    user_points: UserPoints,
    points_amount: u64,
    custom_rate: Option<CustomConversionRate>,
) -> UserPoints {
    if conversion_result(default_rate, user_points, points_amount, custom_rate) is Ok {
        debited(user_points, points_amount)
    } else {
        user_points
    }
}

/// Converts `points_amount` points of `user_points` into tokens.
///
/// On success the balance is lower by exactly `points_amount`, and the result is
/// the amount of tokens that the caller must have minted. On failure nothing has
/// changed and nothing may be minted.
pub fn convert(
    token_info: &TokenInfo,
    user_points: &mut UserPoints,
    points_amount: u64,
    custom_rate: Option<CustomConversionRate>,
) -> (r: Result<u64, ErrorCode>)
    ensures
        r == conversion_result(
            token_info.default_conversion_rate,
            *old(user_points),
            points_amount,
            custom_rate,
        ),
        *final(user_points) == points_after_conversion(
            token_info.default_conversion_rate,
            *old(user_points),
            points_amount,
            custom_rate,
        ),
        final(user_points).owner == old(user_points).owner,
        r is Ok ==> final(user_points).amount == old(user_points).amount - points_amount,
        r is Err ==> *final(user_points) == *old(user_points),
{
    let rate = match resolve_rate(token_info, custom_rate, &user_points.owner) {
        Ok(rate) => rate,
        Err(e) => {
            return Err(e);
        },
    };
    if rate == 0 {
        return Err(ErrorCode::InvalidConversionRate);
    }
    let tokens: u64 = points_amount / rate;
    match debit(user_points, points_amount) {
        Ok(()) => Ok(tokens),
        Err(e) => Err(e),
    }
}

} // verus!
