use points_token::points_ledger::debit;
use points_token::{ErrorCode, Identity, UserPoints};

fn points(amount: u64) -> UserPoints {
    UserPoints { owner: Identity::new([3; 32]), amount }
}

#[test]
fn debit_takes_exactly_the_amount() {
    let mut p = points(100);
    assert_eq!(debit(&mut p, 30), Ok(()));
    assert_eq!(p, points(70));
}

#[test]
fn debit_of_the_whole_balance_leaves_zero() {
    let mut p = points(100);
    assert_eq!(debit(&mut p, 100), Ok(()));
    assert_eq!(p.amount, 0);
}

#[test]
fn debit_of_nothing_changes_nothing() {
    let mut p = points(0);
    assert_eq!(debit(&mut p, 0), Ok(()));
    assert_eq!(p, points(0));
}

#[test]
fn debit_beyond_the_balance_is_refused_and_changes_nothing() {
    for (balance, amount) in [(0u64, 1u64), (100, 101), (100, u64::MAX), (u64::MAX - 1, u64::MAX)] {
        let mut p = points(balance);
        assert_eq!(debit(&mut p, amount), Err(ErrorCode::InsufficientPoints));
        assert_eq!(p, points(balance));
    }
}

#[test]
fn debit_at_the_top_of_the_range_does_not_wrap() {
    let mut p = points(u64::MAX);
    assert_eq!(debit(&mut p, u64::MAX - 1), Ok(()));
    assert_eq!(p.amount, 1);
    assert_eq!(debit(&mut p, 2), Err(ErrorCode::InsufficientPoints));
    assert_eq!(p.amount, 1);
}
