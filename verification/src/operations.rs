//! The operations that the ledger offers to the outside.
//!
//! Each operation comes with a structure that holds the records it reads and
//! writes and, where the operation is reserved to the authority, the identity of
//! the caller. An operation either applies all of its writes or none: when it
//! fails, the structure is exactly as it was.
//!
//! Every operation that changes a rate, stages or applies a batch, or mints
//! directly passes the authorization guard first. The conversion of points does
//! not: whoever may ask the mint capability for tokens may convert, and the
//! ledger compares the caller of a conversion with no stored identity.

use crate::authorization::{authorization, authorize};
use crate::batch_registry::{
    after_application,
    after_submission,
    application_result,
    apply_staged_rate,
    submission_result,
    submit_batch,
};
use crate::conversion::{conversion_result, convert, points_after_conversion};
use crate::error::ErrorCode;
use crate::identity::Identity;
use crate::rate_store::{
    after_set_custom_rate,
    after_set_default_rate,
    rate_check,
    set_custom_rate,
    set_default_rate,
};
use crate::state::{
    BatchConversionRates,
    CustomConversionRate,
    TokenInfo,
    UserPoints,
    MAX_BATCH_ENTRIES,
};
use vstd::prelude::*;

verus! {

/// The answer of an operation that passes the guard and then makes a check of
/// its own: a refusal by the guard comes first.
pub open spec fn guarded<T>(guard: Result<(), ErrorCode>, then: Result<T, ErrorCode>) -> Result<
    T,
    ErrorCode,
> {
    match guard {
        Err(e) => Err(e),
        Ok(()) => then,
    }
}

/// What `initialize` works on: the token record to fill, and the caller, who
/// becomes the authority.
#[derive(Clone, Debug, PartialEq, Eq)]
pub struct Initialize {
    pub token_info: TokenInfo,
    pub authority: Identity,
}

/// What `mint_token` works on.
#[derive(Clone, Debug, PartialEq, Eq)]
pub struct MintToken {
    pub token_info: TokenInfo,
    /// The caller.
    pub authority: Identity,
}

/// What `update_default_conversion_rate` works on.
#[derive(Clone, Debug, PartialEq, Eq)]
pub struct UpdateDefaultRate {
    pub token_info: TokenInfo,
    /// The caller.
    pub authority: Identity,
}

/// What `set_custom_conversion_rate` works on.
#[derive(Clone, Debug, PartialEq, Eq)]
pub struct SetCustomRate {
    pub token_info: TokenInfo,
    /// The custom-rate record kept for `user_account`.
    pub custom_rate: CustomConversionRate,
    /// The user whose rate is set.
    pub user_account: Identity,
    /// The caller.
    pub authority: Identity,
}

/// What `batch_set_custom_rates` works on.
#[derive(Clone, Debug, PartialEq, Eq)]
pub struct BatchSetCustomRates {
    pub token_info: TokenInfo,
    pub batch_rates: BatchConversionRates,
    /// The caller.
    pub authority: Identity,
}

/// What `apply_batch_rate` works on.
#[derive(Clone, Debug, PartialEq, Eq)]
pub struct ApplyBatchRate {
    pub token_info: TokenInfo,
    pub batch_rates: BatchConversionRates,
    /// The custom-rate record kept for `user_account`.
    pub custom_rate: CustomConversionRate,
    /// The user whose staged rate is applied.
    pub user_account: Identity,
    /// The caller.
    pub authority: Identity,
}

/// What `convert_points` works on.
#[derive(Clone, Debug, PartialEq, Eq)]
pub struct ConvertPoints {
    pub token_info: TokenInfo,
    pub user_points: UserPoints,
    /// The custom-rate record handed over with the request, if any.
    pub custom_rate: Option<CustomConversionRate>,
    /// The caller, on whose word the mint capability is asked. The conversion
    /// itself does not examine it.
    pub authority: Identity,
}

/// Fills the token record and makes the caller its authority.
///
/// Whatever the record held before is replaced. A default rate of zero is
/// refused with `InvalidConversionRate`, so that a record filled here always
/// has a positive rate.
pub fn initialize(
    ctx: &mut Initialize,
    name: String,
    symbol: String,
    decimals: u8,
    default_conversion_rate: u64,
) -> (r: Result<(), ErrorCode>)
    ensures
        r == rate_check(default_conversion_rate),
        r is Ok ==> final(ctx).token_info == (TokenInfo {
            name,
            symbol,
            decimals,
            authority: old(ctx).authority,
            default_conversion_rate,
        }),
        r is Ok ==> final(ctx).token_info.well_formed(),
        final(ctx).authority == old(ctx).authority,
        r is Err ==> *final(ctx) == *old(ctx),
{
    if default_conversion_rate == 0 {
        return Err(ErrorCode::InvalidConversionRate);
    }
    ctx.token_info.name = name;
    ctx.token_info.symbol = symbol;
    ctx.token_info.decimals = decimals;
    ctx.token_info.authority = ctx.authority;
    ctx.token_info.default_conversion_rate = default_conversion_rate;
    Ok(())
}

/// Clears a direct mint of `amount` tokens.
///
/// The result is the amount that the mint capability is to credit. Only the
/// stored authority is let through.
pub fn mint_token(ctx: &MintToken, amount: u64) -> (r: Result<u64, ErrorCode>)
    ensures
        r == guarded(authorization(ctx.token_info.authority, ctx.authority), Ok(amount)),
{
    match authorize(&ctx.token_info.authority, &ctx.authority) {
        Ok(_) => Ok(amount),
        Err(e) => Err(e),
    }
}

/// Replaces the default rate, for the stored authority only.
pub fn update_default_conversion_rate(
    ctx: &mut UpdateDefaultRate,
    new_rate: u64,
) -> (r: Result<(), ErrorCode>)
    ensures
        r == guarded(
            authorization(old(ctx).token_info.authority, old(ctx).authority),
            rate_check(new_rate),
        ),
        r is Ok ==> *final(ctx) == (UpdateDefaultRate {
            token_info: after_set_default_rate(old(ctx).token_info, new_rate),
            ..*old(ctx)
        }),
        r is Ok ==> final(ctx).token_info.well_formed(),
        r is Err ==> *final(ctx) == *old(ctx),
{
    match authorize(&ctx.token_info.authority, &ctx.authority) {
        Ok(capability) => set_default_rate(&mut ctx.token_info, new_rate, capability),
        Err(e) => Err(e),
    }
}

/// Creates or overwrites the custom rate of `ctx.user_account`, for the stored
/// authority only.
pub fn set_custom_conversion_rate(
    ctx: &mut SetCustomRate,
    custom_rate: u64,
) -> (r: Result<(), ErrorCode>)
    ensures
        r == guarded(
            authorization(old(ctx).token_info.authority, old(ctx).authority),
            rate_check(custom_rate),
        ),
        r is Ok ==> *final(ctx) == (SetCustomRate {
            custom_rate: after_set_custom_rate(
                old(ctx).custom_rate,
                old(ctx).user_account,
                custom_rate,
            ),
            ..*old(ctx)
        }),
        r is Ok ==> final(ctx).custom_rate.well_formed(),
        r is Err ==> *final(ctx) == *old(ctx),
{
    match authorize(&ctx.token_info.authority, &ctx.authority) {
        Ok(capability) => set_custom_rate(
            &mut ctx.custom_rate,
            ctx.user_account,
            custom_rate,
            capability,
        ),
        Err(e) => Err(e),
    }
}

/// Replaces the batch registry by `user_rates`, for the stored authority only.
///
/// At most `MAX_BATCH_ENTRIES` entries are taken, and none with a rate of zero.
/// No custom rate changes: see `apply_batch_rate`.
pub fn batch_set_custom_rates(
    ctx: &mut BatchSetCustomRates,
    user_rates: Vec<(Identity, u64)>,
) -> (r: Result<(), ErrorCode>)
    ensures
        r == guarded(
            authorization(old(ctx).token_info.authority, old(ctx).authority),
            submission_result(user_rates@, MAX_BATCH_ENTRIES),
        ),
        r is Ok ==> final(ctx).batch_rates@ == after_submission(
            old(ctx).batch_rates@,
            old(ctx).authority,
            user_rates@,
            MAX_BATCH_ENTRIES,
        ),
        r is Ok ==> final(ctx).batch_rates.well_formed(),
        final(ctx).token_info == old(ctx).token_info,
        final(ctx).authority == old(ctx).authority,
        r is Err ==> *final(ctx) == *old(ctx),
{
    match authorize(&ctx.token_info.authority, &ctx.authority) {
        Ok(capability) => submit_batch(
            &mut ctx.batch_rates,
            capability,
            user_rates,
            MAX_BATCH_ENTRIES,
        ),
        Err(e) => Err(e),
    }
}

/// Applies to the custom-rate record of `ctx.user_account` the rate that the
/// batch registry holds for that user, for the stored authority only.
///
/// The result says whether the registry named the user. The registry keeps its
/// entries.
pub fn apply_batch_rate(ctx: &mut ApplyBatchRate) -> (r: Result<bool, ErrorCode>)
    ensures
        r == guarded(
            authorization(old(ctx).token_info.authority, old(ctx).authority),
            application_result(old(ctx).batch_rates.user_rates@, old(ctx).user_account),
        ),
        r is Ok ==> *final(ctx) == (ApplyBatchRate {
            custom_rate: after_application(
                old(ctx).batch_rates.user_rates@,
                old(ctx).custom_rate,
                old(ctx).user_account,
            ),
            ..*old(ctx)
        }),
        r != Ok::<bool, ErrorCode>(true) ==> *final(ctx) == *old(ctx),
{
    match authorize(&ctx.token_info.authority, &ctx.authority) {
        Ok(capability) => apply_staged_rate(
            &ctx.batch_rates,
            &mut ctx.custom_rate,
            ctx.user_account,
            capability,
        ),
        Err(e) => Err(e),
    }
}

/// Converts `points_amount` points of `ctx.user_points` into tokens.
///
/// The result is the amount that the mint capability is to credit. The caller
/// is not held against the stored authority.
pub fn convert_points(ctx: &mut ConvertPoints, points_amount: u64) -> (r: Result<u64, ErrorCode>)
    ensures
        r == conversion_result(
            old(ctx).token_info.default_conversion_rate,
            old(ctx).user_points,
            points_amount,
            old(ctx).custom_rate,
        ),
        *final(ctx) == (ConvertPoints {
            user_points: points_after_conversion(
                old(ctx).token_info.default_conversion_rate,
                old(ctx).user_points,
                points_amount,
                old(ctx).custom_rate,
            ),
            ..*old(ctx)
        }),
        r is Ok ==> final(ctx).user_points.amount == old(ctx).user_points.amount - points_amount,
        r is Err ==> *final(ctx) == *old(ctx),
{
    convert(&ctx.token_info, &mut ctx.user_points, points_amount, ctx.custom_rate)
}

} // verus!
