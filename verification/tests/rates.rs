use points_token::authorization::authorize;
use points_token::rate_store::{resolve_rate, set_custom_rate, set_default_rate};
use points_token::{AuthorityCapability, CustomConversionRate, ErrorCode, Identity, TokenInfo};

fn id(tag: u8) -> Identity {
    Identity::new([tag; 32])
}

fn capability() -> AuthorityCapability {
    authorize(&id(1), &id(1)).unwrap()
}

fn token_info(rate: u64) -> TokenInfo {
    TokenInfo {
        name: "Points".to_string(),
        symbol: "PTS".to_string(),
        decimals: 6,
        authority: id(1),
        default_conversion_rate: rate,
    }
}

#[test]
fn set_default_rate_replaces_the_rate_only() {
    let mut info = token_info(10);
    assert_eq!(set_default_rate(&mut info, 25, capability()), Ok(()));
    assert_eq!(info, token_info(25));
}

#[test]
fn set_default_rate_zero_is_refused_and_changes_nothing() {
    let mut info = token_info(10);
    assert_eq!(set_default_rate(&mut info, 0, capability()), Err(ErrorCode::InvalidConversionRate));
    assert_eq!(info, token_info(10));
}

#[test]
fn set_custom_rate_writes_the_whole_record() {
    let mut record = CustomConversionRate::default();
    assert_eq!(set_custom_rate(&mut record, id(5), 3, capability()), Ok(()));
    assert_eq!(
        record,
        CustomConversionRate { user: id(5), conversion_rate: 3, is_initialized: true }
    );
}

#[test]
fn set_custom_rate_overwrites_an_earlier_rate() {
    let mut record = CustomConversionRate { user: id(4), conversion_rate: 9, is_initialized: true };
    assert_eq!(set_custom_rate(&mut record, id(5), 3, capability()), Ok(()));
    assert_eq!(
        record,
        CustomConversionRate { user: id(5), conversion_rate: 3, is_initialized: true }
    );
}

#[test]
fn set_custom_rate_zero_is_refused_and_changes_nothing() {
    let mut fresh = CustomConversionRate::default();
    assert_eq!(set_custom_rate(&mut fresh, id(5), 0, capability()), Err(ErrorCode::InvalidConversionRate));
    assert_eq!(fresh, CustomConversionRate::default());

    let before = CustomConversionRate { user: id(4), conversion_rate: 9, is_initialized: true };
    let mut record = before;
    assert_eq!(set_custom_rate(&mut record, id(5), 0, capability()), Err(ErrorCode::InvalidConversionRate));
    assert_eq!(record, before);
}

#[test]
fn set_custom_rate_twice_is_the_same_as_once() {
    let mut once = CustomConversionRate::default();
    assert_eq!(set_custom_rate(&mut once, id(5), 3, capability()), Ok(()));
    let mut twice = CustomConversionRate::default();
    assert_eq!(set_custom_rate(&mut twice, id(5), 3, capability()), Ok(()));
    assert_eq!(set_custom_rate(&mut twice, id(5), 3, capability()), Ok(()));
    assert_eq!(once, twice);
}

#[test]
fn resolve_rate_without_a_record_is_the_default_rate() {
    assert_eq!(resolve_rate(&token_info(10), None, &id(5)), Ok(10));
    assert_eq!(resolve_rate(&token_info(0), None, &id(5)), Ok(0));
}

#[test]
fn resolve_rate_prefers_an_initialized_record_of_the_user() {
    let record = CustomConversionRate { user: id(5), conversion_rate: 3, is_initialized: true };
    for default_rate in [0u64, 1, 3, 10, u64::MAX] {
        assert_eq!(resolve_rate(&token_info(default_rate), Some(record), &id(5)), Ok(3));
    }
}

#[test]
fn resolve_rate_refuses_a_record_of_another_user() {
    let record = CustomConversionRate { user: id(6), conversion_rate: 3, is_initialized: true };
    assert_eq!(
        resolve_rate(&token_info(10), Some(record), &id(5)),
        Err(ErrorCode::InvalidCustomRateAccount)
    );
}

#[test]
fn resolve_rate_refuses_a_record_that_is_not_initialized() {
    let record = CustomConversionRate { user: id(5), conversion_rate: 3, is_initialized: false };
    assert_eq!(
        resolve_rate(&token_info(10), Some(record), &id(5)),
        Err(ErrorCode::CustomRateNotInitialized)
    );
}

#[test]
fn resolve_rate_after_set_custom_rate_is_the_rate_that_was_set() {
    let mut record = CustomConversionRate::default();
    assert_eq!(set_custom_rate(&mut record, id(5), 12, capability()), Ok(()));
    assert_eq!(resolve_rate(&token_info(10), Some(record), &id(5)), Ok(12));
}

#[test]
fn identities_that_differ_in_one_byte_are_different_users() {
    let mut bytes = [5u8; 32];
    bytes[31] = 6;
    let near = Identity::new(bytes);
    assert_ne!(near, id(5));
    let record = CustomConversionRate { user: near, conversion_rate: 3, is_initialized: true };
    assert_eq!(
        resolve_rate(&token_info(10), Some(record), &id(5)),
        Err(ErrorCode::InvalidCustomRateAccount)
    );
    let mut first = [5u8; 32];
    first[0] = 4;
    assert_ne!(Identity::new(first), id(5));
    assert_eq!(Identity::new([5u8; 32]), id(5));
}

#[test]
fn the_default_identity_is_all_zero() {
    assert_eq!(Identity::default().to_bytes(), [0u8; 32]);
    assert_eq!(Identity::default(), Identity::new([0u8; 32]));
    assert_eq!(id(9).to_bytes(), [9u8; 32]);
}
