use particlebench::fx::{fp_add, fp_div, fp_div_count, fp_mul, fp_sub, SCALE};

#[test]
fn scale_is_a_million() {
    assert_eq!(SCALE, 1_000_000);
}

#[test]
fn exact_products() {
    // 2.5 * 4 = 10
    assert_eq!(fp_mul(2_500_000, 4_000_000), 10_000_000);
    // -5 * -1.1 = 5.5: the bounce arithmetic.
    assert_eq!(fp_mul(-5_000_000, -1_100_000), 5_500_000);
    // truncation is toward zero on both signs
    assert_eq!(fp_mul(1, 1), 0);
    assert_eq!(fp_mul(-1, 1), 0);
}

#[test]
fn exact_quotients() {
    // 1 / 0.02 = 50: the mean frame rate of the round-trip trace.
    assert_eq!(fp_div(SCALE, 20_000), 50_000_000);
    // 3 / 0.005 = 600: the strongest wind-over-radius factor.
    assert_eq!(fp_div(3_000_000, 5_000), 600_000_000);
    // truncation toward zero for a negative numerator
    assert_eq!(fp_div(-1_000_000, 3_000_000), -333_333);
}

#[test]
fn sums_saturate() {
    assert_eq!(fp_add(i64::MAX, 1), i64::MAX);
    assert_eq!(fp_sub(i64::MIN, 1), i64::MIN);
    assert_eq!(fp_add(2_000_000, -500_000), 1_500_000);
}

#[test]
fn count_division() {
    assert_eq!(fp_div_count(60_000, 3), 20_000);
    assert_eq!(fp_div_count(-7, 2), -3);
}
