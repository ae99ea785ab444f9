//! What holds of the ledger as a whole.
//!
//! Each statement here is proved from the definitions that the contracts of the
//! operations are written in, so it holds of every call of those operations.

use crate::batch_registry::{
    after_application,
    after_submission,
    applied_in_order,
    has_zero_rate,
    submission_result,
};
use crate::conversion::{conversion_result, points_after_conversion, token_amount};
use crate::error::ErrorCode;
use crate::identity::Identity;
use crate::points_ledger::{debit_result, debited};
use crate::rate_store::{after_set_custom_rate, after_set_default_rate, rate_check, resolved_rate};
use crate::state::{
    BatchView,
    CustomConversionRate,
    TokenInfo,
    UserPoints,
    UserRate,
    MAX_BATCH_ENTRIES,
};
use vstd::prelude::*;

verus! {

/// The tokens that points are worth are the points divided by the rate and
/// rounded down: as many whole tokens as the points pay for, and never one
/// more.
pub proof fn law_token_amount_rounds_down(points_amount: u64, rate: u64)
    requires
        rate > 0,
    ensures
        0 <= token_amount(points_amount, rate) <= points_amount,
        token_amount(points_amount, rate) * rate <= points_amount,
        points_amount < (token_amount(points_amount, rate) + 1) * rate,
{
    let p = points_amount as int;
    let d = rate as int;
    vstd::arithmetic::div_mod::lemma_fundamental_div_mod(p, d);
    vstd::arithmetic::div_mod::lemma_mod_bound(p, d);
    vstd::arithmetic::div_mod::lemma_div_pos_is_pos(p, d);
    assert(d * (p / d) == (p / d) * d) by (nonlinear_arith);
    assert((p / d + 1) * d == (p / d) * d + d) by (nonlinear_arith);
    assert((p / d) <= p) by {
        assert((p / d) * d >= (p / d)) by (nonlinear_arith)
            requires
                p / d >= 0,
                d >= 1,
        ;
    }
}

/// A conversion without a custom rate goes by the default rate. Where the
/// balance covers the points, the tokens are the points divided by the default
/// rate, rounded down, and the balance goes down by exactly the points
/// converted. Where it does not, the conversion is refused with
/// `InsufficientPoints` and the balance is as it was.
pub proof fn law_conversion_at_default_rate(
    default_rate: u64,
    user_points: UserPoints,
    points_amount: u64,
)
    requires
        points_amount > 0,
        default_rate > 0,
    ensures
        user_points.amount >= points_amount ==> {
            &&& conversion_result(default_rate, user_points, points_amount, None) == Ok::<
                u64,
                ErrorCode,
            >(points_amount / default_rate)
            &&& points_after_conversion(default_rate, user_points, points_amount, None).amount
                == user_points.amount - points_amount
            &&& points_after_conversion(default_rate, user_points, points_amount, None).owner
                == user_points.owner
        },
        user_points.amount < points_amount ==> {
            &&& conversion_result(default_rate, user_points, points_amount, None) == Err::<
                u64,
                ErrorCode,
            >(ErrorCode::InsufficientPoints)
            &&& points_after_conversion(default_rate, user_points, points_amount, None)
                == user_points
        },
{
}

/// An initialized custom rate of a user is the rate of that user, whatever the
/// default rate is.
pub proof fn law_custom_rate_overrides_default(
    default_rate: u64,
    record: CustomConversionRate,
    user: Identity,
)
    requires
        record.is_initialized,
        record.user == user,
    ensures
        resolved_rate(default_rate, Some(record), user) == Ok::<u64, ErrorCode>(
            record.conversion_rate,
        ),
{
}

/// A conversion with an initialized custom rate of the owner goes by that rate
/// and does not depend on the default rate.
pub proof fn law_conversion_at_custom_rate(
    default_rate: u64,
    other_default_rate: u64,
    user_points: UserPoints,
    points_amount: u64,
    record: CustomConversionRate,
)
    requires
        record.is_initialized,
        record.user == user_points.owner,
    ensures
        conversion_result(default_rate, user_points, points_amount, Some(record))
            == conversion_result(other_default_rate, user_points, points_amount, Some(record)),
        record.conversion_rate > 0 && user_points.amount >= points_amount ==> conversion_result(
            default_rate,
            user_points,
            points_amount,
            Some(record),
        ) == Ok::<u64, ErrorCode>(points_amount / record.conversion_rate),
{
}

/// A debit of more points than the balance holds is refused with
/// `InsufficientPoints` and leaves the balance as it was.
pub proof fn law_overdraft_is_refused(user_points: UserPoints, amount: u64)
    requires
        amount > user_points.amount,
    ensures
        debit_result(user_points, amount) == Err::<(), ErrorCode>(ErrorCode::InsufficientPoints),
        debited(user_points, amount) == user_points,
{
}

/// A debit never raises a balance and never wraps: what is left and what was
/// taken add up to what was there.
pub proof fn law_debit_is_exact(user_points: UserPoints, amount: u64)
    ensures
        debited(user_points, amount).owner == user_points.owner,
        debited(user_points, amount).amount <= user_points.amount,
        debit_result(user_points, amount) is Ok <==> amount <= user_points.amount,
        debit_result(user_points, amount) is Ok ==> debited(user_points, amount).amount + amount
            == user_points.amount,
{
}

/// A conversion never raises a balance, and changes it only where it succeeds.
pub proof fn law_balance_never_grows(
    default_rate: u64,
    user_points: UserPoints,
    points_amount: u64,
    custom_rate: Option<CustomConversionRate>,
)
    ensures
        points_after_conversion(default_rate, user_points, points_amount, custom_rate).amount
            <= user_points.amount,
        points_after_conversion(default_rate, user_points, points_amount, custom_rate).owner
            == user_points.owner,
        conversion_result(default_rate, user_points, points_amount, custom_rate) is Err
            ==> points_after_conversion(default_rate, user_points, points_amount, custom_rate)
            == user_points,
{
}

/// A rate of zero is refused with `InvalidConversionRate`, as a default rate and
/// as a custom rate of any user, and what was stored before stays.
pub proof fn law_zero_rate_is_refused(
    token_info: TokenInfo,
    record: CustomConversionRate,
    user: Identity,
)
    ensures
        rate_check(0) == Err::<(), ErrorCode>(ErrorCode::InvalidConversionRate),
        after_set_default_rate(token_info, 0) == token_info,
        after_set_custom_rate(record, user, 0) == record,
{
}

/// Setting the same custom rate for the same user a second time changes
/// nothing: the record is as it was after the first time, and the answer is the
/// same.
pub proof fn law_set_custom_rate_is_idempotent(
    record: CustomConversionRate,
    user: Identity,
    rate: u64,
)
    ensures
        after_set_custom_rate(after_set_custom_rate(record, user, rate), user, rate)
            == after_set_custom_rate(record, user, rate),
{
}

/// Setting a rate keeps the records well formed: a default rate stays positive,
/// and an initialized custom rate stays positive.
pub proof fn law_rates_stay_positive(
    token_info: TokenInfo,
    record: CustomConversionRate,
    user: Identity,
    rate: u64,
)
    ensures
        token_info.well_formed() ==> after_set_default_rate(token_info, rate).well_formed(),
        record.well_formed() ==> after_set_custom_rate(record, user, rate).well_formed(),
{
}

/// A batch with more entries than the registry takes is refused with
/// `BatchTooLarge`, whatever its rates are, and the registry is as it was.
pub proof fn law_oversized_batch_is_refused(
    before: BatchView,
    authority: Identity,
    entries: Seq<(Identity, u64)>,
    max_len: usize,
)
    requires
        entries.len() > max_len,
    ensures
        submission_result(entries, max_len) == Err::<(), ErrorCode>(ErrorCode::BatchTooLarge),
        after_submission(before, authority, entries, max_len) == before,
{
}

/// A batch that is not too large but holds a rate of zero, at whatever place,
/// is refused with `InvalidConversionRate`, and no part of it is kept: the
/// registry is as it was.
pub proof fn law_batch_with_zero_rate_is_refused(
    before: BatchView,
    authority: Identity,
    entries: Seq<(Identity, u64)>,
    max_len: usize,
    i: int,
)
    requires
        entries.len() <= max_len,
        0 <= i < entries.len(),
        entries[i].1 == 0,
    ensures
        submission_result(entries, max_len) == Err::<(), ErrorCode>(
            ErrorCode::InvalidConversionRate,
        ),
        after_submission(before, authority, entries, max_len) == before,
{
    assert(has_zero_rate(entries));
}

/// A submission leaves the registry well formed, whether the batch is accepted
/// or refused.
pub proof fn law_registry_stays_well_formed(
    before: BatchView,
    authority: Identity,
    entries: Seq<(Identity, u64)>,
)
    requires
        before.well_formed(),
    ensures
        after_submission(before, authority, entries, MAX_BATCH_ENTRIES).well_formed(),
{
    let after = after_submission(before, authority, entries, MAX_BATCH_ENTRIES);
    if submission_result(entries, MAX_BATCH_ENTRIES) is Ok {
        assert forall|i: int| 0 <= i < after.user_rates.len() implies (
        #[trigger] after.user_rates[i]).rate > 0 by {
            if entries[i].1 == 0 {
                assert(has_zero_rate(entries));
            }
        }
    }
}

/// Applying what a registry holds for a user gives the record that the user
/// would have if the entries had been applied one by one in the order of
/// submission: where a user is named more than once, the last entry counts.
pub proof fn law_application_follows_submission_order(
    rates: Seq<UserRate>,
    record: CustomConversionRate,
    user: Identity,
)
    requires
        forall|i: int| 0 <= i < rates.len() ==> (#[trigger] rates[i]).rate > 0,
    ensures
        after_application(rates, record, user) == applied_in_order(rates, record, user),
    decreases rates.len(),
{
    if rates.len() > 0 {
        let front = rates.drop_last();
        assert forall|i: int| 0 <= i < front.len() implies (#[trigger] front[i]).rate > 0 by {
            assert(front[i] == rates[i]);
        }
        law_application_follows_submission_order(front, record, user);
        assert(rates.last() == rates[rates.len() - 1]);
    }
}

} // verus!
