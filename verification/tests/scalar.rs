use sktablelayout::scalar::{div, larger, mul_div, sat_add, sat_neg, sat_sub, smaller};

#[test]
fn sums_stop_at_the_ends_of_the_range() {
    assert_eq!(sat_add(2, 3), 5);
    assert_eq!(sat_add(-2, -3), -5);
    assert_eq!(sat_add(i64::MAX, 1), i64::MAX);
    assert_eq!(sat_add(i64::MAX, i64::MAX), i64::MAX);
    assert_eq!(sat_add(i64::MIN, -1), i64::MIN);
    assert_eq!(sat_add(i64::MAX, i64::MIN), -1);
}

#[test]
fn differences_stop_at_the_ends_of_the_range() {
    assert_eq!(sat_sub(2, 3), -1);
    assert_eq!(sat_sub(i64::MIN, 1), i64::MIN);
    assert_eq!(sat_sub(i64::MAX, -1), i64::MAX);
    assert_eq!(sat_sub(0, i64::MIN), i64::MAX);
    assert_eq!(sat_sub(-1, i64::MIN), i64::MAX);
}

#[test]
fn negation_of_the_least_value_is_the_greatest() {
    assert_eq!(sat_neg(5), -5);
    assert_eq!(sat_neg(-5), 5);
    assert_eq!(sat_neg(0), 0);
    assert_eq!(sat_neg(i64::MAX), -i64::MAX);
    assert_eq!(sat_neg(i64::MIN), i64::MAX);
}

#[test]
fn quotients_round_toward_zero() {
    assert_eq!(div(7, 2), 3);
    assert_eq!(div(-7, 2), -3);
    assert_eq!(div(7, -2), -3);
    assert_eq!(div(-7, -2), 3);
    assert_eq!(div(0, 5), 0);
    assert_eq!(div(1, 2), 0);
    assert_eq!(div(-1, 2), 0);
    assert_eq!(div(i64::MIN, -1), i64::MAX);
    assert_eq!(div(i64::MIN, 1), i64::MIN);
    assert_eq!(div(i64::MAX, -1), -i64::MAX);
}

#[test]
fn products_are_exact_before_the_division() {
    assert_eq!(mul_div(96, 64, 128), 48);
    assert_eq!(mul_div(10, 10, 30), 3);
    assert_eq!(mul_div(-10, 10, 30), -3);
    assert_eq!(mul_div(10, -10, -30), 3);
    assert_eq!(mul_div(i64::MAX, i64::MAX, i64::MAX), i64::MAX);
    assert_eq!(mul_div(i64::MAX, 4, 8), i64::MAX / 2);
    assert_eq!(mul_div(i64::MIN, i64::MAX, i64::MIN), i64::MAX);
    assert_eq!(mul_div(i64::MAX, i64::MAX, 1), i64::MAX);
    assert_eq!(mul_div(i64::MIN, i64::MAX, 1), i64::MIN);
    assert_eq!(mul_div(i64::MIN, i64::MIN, 1), i64::MAX);
    assert_eq!(mul_div(i64::MIN, i64::MIN, i64::MIN), i64::MIN);
}

#[test]
fn larger_and_smaller_pick_one_of_the_two() {
    assert_eq!(larger(3, 5), 5);
    assert_eq!(larger(5, 3), 5);
    assert_eq!(larger(-3, -5), -3);
    assert_eq!(smaller(3, 5), 3);
    assert_eq!(smaller(5, 3), 3);
    assert_eq!(smaller(4, 4), 4);
}
