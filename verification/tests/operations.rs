use points_token::authorization::authorize;
use points_token::operations::{
    initialize, mint_token, set_custom_conversion_rate, update_default_conversion_rate,
    Initialize, MintToken, SetCustomRate, UpdateDefaultRate,
};
use points_token::{CustomConversionRate, ErrorCode, Identity, TokenInfo};

fn id(tag: u8) -> Identity {
    Identity::new([tag; 32])
}

fn blank_token_info() -> TokenInfo {
    TokenInfo {
        name: String::new(),
        symbol: String::new(),
        decimals: 0,
        authority: Identity::default(),
        default_conversion_rate: 0,
    }
}

fn token_info(rate: u64) -> TokenInfo {
    TokenInfo {
        name: "Points".to_string(),
        symbol: "PTS".to_string(),
        decimals: 9,
        authority: id(1),
        default_conversion_rate: rate,
    }
}

#[test]
fn authorize_lets_the_authority_through_and_nobody_else() {
    assert_eq!(authorize(&id(1), &id(1)).unwrap().holder_identity(), id(1));
    assert_eq!(authorize(&id(1), &id(2)).unwrap_err(), ErrorCode::Unauthorized);
    assert_eq!(authorize(&id(2), &id(1)).unwrap_err(), ErrorCode::Unauthorized);
    assert_eq!(authorize(&Identity::default(), &id(2)).unwrap_err(), ErrorCode::Unauthorized);
    assert!(authorize(&Identity::default(), &Identity::default()).is_ok());
}

#[test]
fn initialize_fills_the_record_and_names_the_caller_authority() {
    let mut ctx = Initialize { token_info: blank_token_info(), authority: id(1) };
    assert_eq!(initialize(&mut ctx, "Points".to_string(), "PTS".to_string(), 9, 10), Ok(()));
    assert_eq!(ctx.token_info, token_info(10));
    assert_eq!(ctx.authority, id(1));
}

#[test]
fn initialize_with_a_rate_of_zero_is_refused() {
    let mut ctx = Initialize { token_info: blank_token_info(), authority: id(1) };
    assert_eq!(
        initialize(&mut ctx, "Points".to_string(), "PTS".to_string(), 9, 0),
        Err(ErrorCode::InvalidConversionRate)
    );
    assert_eq!(ctx.token_info, blank_token_info());
}

#[test]
fn mint_token_clears_the_amount_for_the_authority() {
    let ctx = MintToken { token_info: token_info(10), authority: id(1) };
    assert_eq!(mint_token(&ctx, 0), Ok(0));
    assert_eq!(mint_token(&ctx, 1234), Ok(1234));
    assert_eq!(mint_token(&ctx, u64::MAX), Ok(u64::MAX));
}

#[test]
fn mint_token_refuses_a_stranger() {
    let ctx = MintToken { token_info: token_info(10), authority: id(2) };
    assert_eq!(mint_token(&ctx, 1234), Err(ErrorCode::Unauthorized));
}

#[test]
fn update_default_conversion_rate_by_the_authority() {
    let mut ctx = UpdateDefaultRate { token_info: token_info(10), authority: id(1) };
    assert_eq!(update_default_conversion_rate(&mut ctx, 20), Ok(()));
    assert_eq!(ctx.token_info, token_info(20));
    assert_eq!(ctx.authority, id(1));
}

#[test]
fn update_default_conversion_rate_refuses_a_stranger_and_zero() {
    let mut ctx = UpdateDefaultRate { token_info: token_info(10), authority: id(2) };
    assert_eq!(update_default_conversion_rate(&mut ctx, 20), Err(ErrorCode::Unauthorized));
    assert_eq!(update_default_conversion_rate(&mut ctx, 0), Err(ErrorCode::Unauthorized));
    assert_eq!(ctx.token_info, token_info(10));

    let mut ctx = UpdateDefaultRate { token_info: token_info(10), authority: id(1) };
    assert_eq!(update_default_conversion_rate(&mut ctx, 0), Err(ErrorCode::InvalidConversionRate));
    assert_eq!(ctx.token_info, token_info(10));
}

#[test]
fn set_custom_conversion_rate_by_the_authority() {
    let mut ctx = SetCustomRate {
        token_info: token_info(10),
        custom_rate: CustomConversionRate::default(),
        user_account: id(7),
        authority: id(1),
    };
    assert_eq!(set_custom_conversion_rate(&mut ctx, 5), Ok(()));
    assert_eq!(
        ctx.custom_rate,
        CustomConversionRate { user: id(7), conversion_rate: 5, is_initialized: true }
    );
    assert_eq!(ctx.token_info, token_info(10));
    let once = ctx.clone();
    assert_eq!(set_custom_conversion_rate(&mut ctx, 5), Ok(()));
    assert_eq!(ctx, once);
}

#[test]
fn set_custom_conversion_rate_refuses_a_stranger_and_zero() {
    let mut ctx = SetCustomRate {
        token_info: token_info(10),
        custom_rate: CustomConversionRate::default(),
        user_account: id(7),
        authority: id(2),
    };
    let before = ctx.clone();
    assert_eq!(set_custom_conversion_rate(&mut ctx, 5), Err(ErrorCode::Unauthorized));
    assert_eq!(set_custom_conversion_rate(&mut ctx, 0), Err(ErrorCode::Unauthorized));
    assert_eq!(ctx, before);

    ctx.authority = id(1);
    let before = ctx.clone();
    assert_eq!(set_custom_conversion_rate(&mut ctx, 0), Err(ErrorCode::InvalidConversionRate));
    assert_eq!(ctx, before);
}

#[test]
fn every_refusal_has_its_message() {
    assert_eq!(ErrorCode::Unauthorized.message(), "Unauthorized");
    assert_eq!(ErrorCode::InsufficientPoints.message(), "Insufficient points balance");
    assert_eq!(ErrorCode::InvalidConversionRate.message(), "Invalid conversion rate");
    assert_eq!(ErrorCode::InvalidCustomRateAccount.message(), "Invalid custom rate account");
    assert_eq!(
        ErrorCode::CustomRateNotInitialized.message(),
        "Custom rate account not initialized"
    );
    assert_eq!(ErrorCode::BatchTooLarge.message(), "Batch size too large");
}
