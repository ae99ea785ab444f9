//! The rate store: the default rate, the per-user overrides, and the choice
//! between them.

use crate::authorization::AuthorityCapability;
use crate::error::ErrorCode;
use crate::identity::Identity;
use crate::state::{CustomConversionRate, TokenInfo};
use vstd::prelude::*;

verus! {

/// The answer to a rate that is offered for storing: zero is refused.
pub open spec fn rate_check(rate: u64) -> Result<(), ErrorCode> {
    if rate == 0 {
        Err(ErrorCode::InvalidConversionRate)
    } else {
        Ok(())
    }
}

/// The token record after `new_rate` was offered as its default rate: the rate
/// is replaced unless it is zero, and nothing else changes.
pub open spec fn after_set_default_rate(token_info: TokenInfo, new_rate: u64) -> TokenInfo {
    if new_rate == 0 {
        token_info
    } else {
        TokenInfo { default_conversion_rate: new_rate, ..token_info }
    }
}

/// The custom-rate record as written for `user` at `rate`.
pub open spec fn custom_rate_for(user: Identity, rate: u64) -> CustomConversionRate {
    CustomConversionRate { user, conversion_rate: rate, is_initialized: true }
}

/// The custom-rate record after `rate` was offered for `user`: written anew
/// unless the rate is zero.
pub open spec fn after_set_custom_rate(
    record: CustomConversionRate,
    user: Identity,
    rate: u64,
) -> CustomConversionRate {
    if rate == 0 {
        record
    } else {
        custom_rate_for(user, rate)
    }
}

/// The rate at which points of `user` convert.
///
/// Without a custom-rate record it is the default rate. A record that is handed
/// over must name `user` and be initialized; its rate then takes the place of
/// the default one, whatever the default is.
pub open spec fn resolved_rate(
    default_rate: u64,
    custom_rate: Option<CustomConversionRate>,
    user: Identity,
) -> Result<u64, ErrorCode> {
    match custom_rate {
        None => Ok(default_rate),
        Some(record) => if record.user != user {
            Err(ErrorCode::InvalidCustomRateAccount)
        } else if !record.is_initialized {
            Err(ErrorCode::CustomRateNotInitialized)
        } else {
            Ok(record.conversion_rate)
        },
    }
}

/// Replaces the default rate.
///
/// Fails with `InvalidConversionRate`, leaving the record as it was, exactly
/// when `new_rate` is zero. The capability must be that of the authority which
/// the record names.
pub fn set_default_rate(
    token_info: &mut TokenInfo,
    new_rate: u64,
    capability: AuthorityCapability,
) -> (r: Result<(), ErrorCode>)
    requires
        capability.holder() == old(token_info).authority,
    ensures
        r == rate_check(new_rate),
        *final(token_info) == after_set_default_rate(*old(token_info), new_rate),
        r is Ok ==> final(token_info).well_formed(),
        r is Err ==> *final(token_info) == *old(token_info),
{
    if new_rate == 0 {
        return Err(ErrorCode::InvalidConversionRate);
    }
    token_info.default_conversion_rate = new_rate;
    Ok(())
}

/// Creates or overwrites the custom rate of `user`.
///
/// Fails with `InvalidConversionRate`, leaving the record as it was, exactly
/// when `rate` is zero. Otherwise the record names `user`, holds `rate` and is
/// initialized, whatever it held before. The capability shows that the guard
/// was passed.
pub fn set_custom_rate(
    record: &mut CustomConversionRate,
    user: Identity,
    rate: u64,
    capability: AuthorityCapability,
) -> (r: Result<(), ErrorCode>)
    ensures
        r == rate_check(rate),
        *final(record) == after_set_custom_rate(*old(record), user, rate),
        r is Ok ==> final(record).well_formed() && final(record).applies_to(user),
        r is Err ==> *final(record) == *old(record),
{
    if rate == 0 {
        return Err(ErrorCode::InvalidConversionRate);
    }
    record.user = user;
    record.conversion_rate = rate;
    record.is_initialized = true;
    Ok(())
}

/// Chooses the rate at which points of `user` convert.
///
/// Reads only its arguments and changes nothing.
pub fn resolve_rate(
    token_info: &TokenInfo,
    custom_rate: Option<CustomConversionRate>,
    user: &Identity,
) -> (r: Result<u64, ErrorCode>)
    ensures
        r == resolved_rate(token_info.default_conversion_rate, custom_rate, *user),
{
    match custom_rate {
        None => Ok(token_info.default_conversion_rate),
        Some(record) => {
            if record.user != *user {
                Err(ErrorCode::InvalidCustomRateAccount)
            } else if !record.is_initialized {
                Err(ErrorCode::CustomRateNotInitialized)
            } else {
                Ok(record.conversion_rate)
            }
        },
    }
}

} // verus!
