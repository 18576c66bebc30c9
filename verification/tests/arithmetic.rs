use account_guard::errors::PolicyError;
use account_guard::safe_math::{calculate_bps_fee, ceil_div, narrow_cast_u32, safe_add, safe_div,
    safe_mul, safe_sub};

#[test]
fn safe_add_reports_overflow() {
    assert_eq!(safe_add(2, 3), Ok(5));
    assert_eq!(safe_add(u64::MAX, 1), Err(PolicyError::Overflow));
    assert_eq!(safe_add(u64::MAX - 100, 200), Err(PolicyError::Overflow));
    assert_eq!(safe_add(u64::MAX - 1, 1), Ok(u64::MAX));
}

#[test]
fn safe_sub_reports_insufficient_funds() {
    assert_eq!(safe_sub(100, 101), Err(PolicyError::InsufficientFunds));
    assert_eq!(safe_sub(100, 100), Ok(0));
    assert_eq!(safe_sub(0, 1), Err(PolicyError::InsufficientFunds));
    assert_eq!(safe_sub(7, 3), Ok(4));
}

#[test]
fn safe_mul_reports_overflow() {
    assert_eq!(safe_mul(5_000_000_000, 4_000_000_000), Err(PolicyError::Overflow));
    assert_eq!(safe_mul(3, 4), Ok(12));
    assert_eq!(safe_mul(0, u64::MAX), Ok(0));
}

#[test]
fn safe_div_reports_division_by_zero() {
    assert_eq!(safe_div(10, 0), Err(PolicyError::DivisionByZero));
    assert_eq!(safe_div(10, 3), Ok(3));
    assert_eq!(safe_div(0, 5), Ok(0));
}

#[test]
fn ceil_div_rounds_up() {
    assert_eq!(ceil_div(10, 3), Ok(4));
    assert_eq!(ceil_div(9, 3), Ok(3));
    assert_eq!(ceil_div(1, 10000), Ok(1));
    assert_eq!(ceil_div(0, 5), Ok(0));
    assert_eq!(ceil_div(5, 0), Err(PolicyError::DivisionByZero));
    assert_eq!(ceil_div(u64::MAX, 1), Ok(u64::MAX));
    assert_eq!(ceil_div(u64::MAX, 2), Err(PolicyError::Overflow));
}

#[test]
fn bps_fee_never_rounds_to_zero() {
    // 1% of 99 must yield 1 by ceiling, never 0.
    assert_eq!(calculate_bps_fee(99, 100), Ok(1));
    assert_eq!(calculate_bps_fee(10000, 100), Ok(100));
    assert_eq!(calculate_bps_fee(0, 100), Ok(0));
    assert_eq!(calculate_bps_fee(1, 1), Ok(1));
    assert_eq!(calculate_bps_fee(u64::MAX, 2), Err(PolicyError::Overflow));
}

#[test]
fn narrow_cast_refuses_truncation() {
    // 4_294_967_396 would silently become 100 under a raw cast.
    assert_eq!(narrow_cast_u32(4_294_967_396), Err(PolicyError::CastOverflow));
    assert_eq!(narrow_cast_u32(100), Ok(100));
    assert_eq!(narrow_cast_u32(u32::MAX as u64), Ok(u32::MAX));
    assert_eq!(narrow_cast_u32(u32::MAX as u64 + 1), Err(PolicyError::CastOverflow));
}

#[test]
fn ceil_div_round_trip_recovers_factor() {
    // ceil_div(a * b, b) == a whenever b > 0.
    for (a, b) in [(7u64, 3u64), (0, 5), (1, 1), (123456, 789)] {
        let product = safe_mul(a, b).unwrap();
        let back = ceil_div(product, b).unwrap();
        assert!(back >= a);
        assert_eq!(back, a);
    }
}
