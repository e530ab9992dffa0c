use flipsol::errors::ErrorCode;
use flipsol::fees::{cut_of, pool_of, share_of, total_of};

#[test]
fn settlement_fee_math_is_exact() {
    let total_pot: u64 = 1_000_000_000;
    assert_eq!(cut_of(total_pot, 500), Ok(50_000_000));
    assert_eq!(cut_of(total_pot, 300), Ok(30_000_000));
    assert_eq!(pool_of(total_pot, 500, 300), Ok(920_000_000));
}

#[test]
fn cut_rounds_down() {
    assert_eq!(cut_of(9_999, 1), Ok(0));
    assert_eq!(cut_of(10_000, 1), Ok(1));
    assert_eq!(cut_of(19_999, 1), Ok(1));
    assert_eq!(cut_of(3, 5_000), Ok(1));
    assert_eq!(cut_of(0, 1_000), Ok(0));
    assert_eq!(cut_of(12_345, 0), Ok(0));
}

#[test]
fn cut_multiplies_before_it_divides() {
    // 15_000 / 10_000 * 500 would be 500; 15_000 * 500 / 10_000 is 750.
    assert_eq!(cut_of(15_000, 500), Ok(750));
}

#[test]
fn cut_fails_when_the_product_overflows() {
    assert_eq!(cut_of(u64::MAX, 2), Err(ErrorCode::AmountOverflow));
    assert_eq!(cut_of(u64::MAX, 1), Ok(u64::MAX / 10_000));
    assert_eq!(cut_of(u64::MAX / 1_000, 1_000), Ok(u64::MAX / 1_000 * 1_000 / 10_000));
    assert_eq!(cut_of(u64::MAX / 1_000 + 1, 1_000), Err(ErrorCode::AmountOverflow));
}

#[test]
fn total_is_a_checked_sum() {
    assert_eq!(total_of(400, 600), Ok(1_000));
    assert_eq!(total_of(0, 0), Ok(0));
    assert_eq!(total_of(u64::MAX, 0), Ok(u64::MAX));
    assert_eq!(total_of(u64::MAX, 1), Err(ErrorCode::AmountOverflow));
}

#[test]
fn pool_is_the_pot_less_both_cuts() {
    assert_eq!(pool_of(800, 0, 0), Ok(800));
    assert_eq!(pool_of(1_000, 1_000, 0), Ok(900));
    assert_eq!(pool_of(1_000, 0, 1_000), Ok(900));
    assert_eq!(pool_of(1_000, 250, 750), Ok(900));
    assert_eq!(pool_of(0, 500, 300), Ok(0));
}

#[test]
fn pool_fails_when_the_cuts_exceed_the_pot() {
    assert_eq!(pool_of(10, 10_000, 10_000), Err(ErrorCode::AmountOverflow));
    assert_eq!(pool_of(10, 10_000, 0), Ok(0));
    assert_eq!(pool_of(u64::MAX, 1, 2), Err(ErrorCode::AmountOverflow));
    assert_eq!(pool_of(u64::MAX, 2, 1), Err(ErrorCode::AmountOverflow));
}

#[test]
fn shares_are_proportional_to_stakes() {
    assert_eq!(share_of(100, 800, 400), Ok(200));
    assert_eq!(share_of(300, 800, 400), Ok(600));
    assert_eq!(share_of(1, 10, 3), Ok(3));
    assert_eq!(share_of(2, 10, 3), Ok(6));
    assert_eq!(share_of(5, 0, 7), Ok(0));
}

#[test]
fn share_fails_on_overflow_and_on_a_zero_denominator() {
    assert_eq!(share_of(u64::MAX, 2, 1), Err(ErrorCode::AmountOverflow));
    assert_eq!(share_of(u64::MAX, 2, 0), Err(ErrorCode::AmountOverflow));
    assert_eq!(share_of(5, 5, 0), Err(ErrorCode::DivisionByZero));
    assert_eq!(share_of(u64::MAX, 1, 1), Ok(u64::MAX));
}
