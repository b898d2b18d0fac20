use flexible_token_exchange::math::{isqrt, mul_div_floor};

#[test]
fn isqrt_small_values() {
    assert_eq!(isqrt(0), 0);
    assert_eq!(isqrt(1), 1);
    assert_eq!(isqrt(2), 1);
    assert_eq!(isqrt(3), 1);
    assert_eq!(isqrt(4), 2);
}

#[test]
fn isqrt_truncates() {
    assert_eq!(isqrt(35), 5);
    assert_eq!(isqrt(99), 9);
    assert_eq!(isqrt(1_000_000_000_000), 1_000_000);
    assert_eq!(isqrt(1_000_000_000_001), 1_000_000);
}

#[test]
fn isqrt_largest_radicand() {
    assert_eq!(isqrt(u128::MAX), u64::MAX);
    let exact = (u64::MAX as u128) * (u64::MAX as u128);
    assert_eq!(isqrt(exact), u64::MAX);
    assert_eq!(isqrt(exact - 1), u64::MAX - 1);
}

#[test]
fn mul_div_floor_rounds_down() {
    assert_eq!(mul_div_floor(7, 11, 8), 9);
    assert_eq!(mul_div_floor(100, 200, 300), 66);
    assert_eq!(mul_div_floor(0, 5, 3), 0);
}

#[test]
fn mul_div_floor_wide_product() {
    assert_eq!(
        mul_div_floor(u64::MAX, u64::MAX, 1),
        (u64::MAX as u128) * (u64::MAX as u128)
    );
}
