//! The points ledger: the one way in which a balance changes.
//!
//! A balance only ever goes down, and only by an amount that it covers.

use crate::error::ErrorCode;
use crate::state::UserPoints;
use vstd::prelude::*;

verus! {

/// The balance record after an attempt to debit `amount`: reduced by `amount`
/// where the balance covers it, otherwise as it was.
pub open spec fn debited(user_points: UserPoints, amount: u64) -> UserPoints {
    if user_points.amount >= amount {
        UserPoints { owner: user_points.owner, amount: (user_points.amount - amount) as u64 }
    } else {
        user_points
    }
}

/// The answer to an attempt to debit `amount` from `user_points`.
pub open spec fn debit_result(user_points: UserPoints, amount: u64) -> Result<(), ErrorCode> {
    if user_points.amount >= amount {
        Ok(())
    } else {
        Err(ErrorCode::InsufficientPoints)
    }
}

/// Takes `amount` points from the balance.
///
/// Fails with `InsufficientPoints`, leaving the record as it was, exactly when
/// `amount` exceeds the balance. The subtraction never wraps.
pub fn debit(user_points: &mut UserPoints, amount: u64) -> (r: Result<(), ErrorCode>)
    ensures
        r == debit_result(*old(user_points), amount),
        *final(user_points) == debited(*old(user_points), amount),
        final(user_points).owner == old(user_points).owner,
        final(user_points).amount <= old(user_points).amount,
        r is Ok ==> final(user_points).amount == old(user_points).amount - amount,
        r is Err ==> *final(user_points) == *old(user_points),
{
    match user_points.amount.checked_sub(amount) {
        Some(rest) => {
            user_points.amount = rest;
            Ok(())
        },
        None => Err(ErrorCode::InsufficientPoints),
    }
}

} // verus!
