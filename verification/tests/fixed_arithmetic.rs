use macroquad_canvas_2d::fixed::{ONE, TWO};
use macroquad_canvas_2d::Fixed;

fn whole(n: i32) -> Fixed {
    Fixed::from_int(n)
}

fn raw(r: i64) -> Fixed {
    Fixed { raw: r }
}

#[test]
fn one_and_two_are_two_to_the_32_and_33() {
    assert_eq!(ONE, 1i64 << 32);
    assert_eq!(TWO, 1i64 << 33);
    assert_eq!(whole(1).raw, ONE);
    assert_eq!(whole(2).raw, TWO);
}

#[test]
fn from_int_scales_by_one() {
    assert_eq!(whole(0).raw, 0);
    assert_eq!(whole(800).raw, 800 * ONE);
    assert_eq!(whole(-3).raw, -3 * ONE);
    assert_eq!(whole(i32::MAX).raw, (i32::MAX as i64) * ONE);
    assert_eq!(whole(i32::MIN).raw, i64::MIN);
}

#[test]
fn numbers_are_ordered_by_their_raw_count() {
    let ascending = [i64::MIN, -ONE, -1, 0, 1, ONE, 123_456_789_012, i64::MAX];
    for (i, a) in ascending.iter().enumerate() {
        for (j, b) in ascending.iter().enumerate() {
            assert_eq!(raw(*a) < raw(*b), i < j);
            assert_eq!(raw(*a) <= raw(*b), i <= j);
            assert_eq!(raw(*a) == raw(*b), i == j);
        }
    }
}

#[test]
fn addition_is_exact_in_range() {
    assert_eq!(whole(3).saturating_add(whole(4)), whole(7));
    assert_eq!(raw(5).saturating_add(raw(-8)), raw(-3));
    assert_eq!(whole(-3).saturating_add(whole(3)), whole(0));
}

#[test]
fn addition_clamps_at_both_ends() {
    assert_eq!(raw(i64::MAX).saturating_add(raw(1)), raw(i64::MAX));
    assert_eq!(raw(i64::MAX).saturating_add(raw(i64::MAX)), raw(i64::MAX));
    assert_eq!(raw(i64::MIN).saturating_add(raw(-1)), raw(i64::MIN));
    assert_eq!(raw(i64::MIN).saturating_add(raw(i64::MIN)), raw(i64::MIN));
    assert_eq!(raw(i64::MAX).saturating_add(raw(i64::MIN)), raw(-1));
}

#[test]
fn subtraction_is_exact_in_range() {
    assert_eq!(whole(3).saturating_sub(whole(4)), whole(-1));
    assert_eq!(raw(5).saturating_sub(raw(-8)), raw(13));
}

#[test]
fn subtraction_clamps_at_both_ends() {
    assert_eq!(raw(i64::MIN).saturating_sub(raw(1)), raw(i64::MIN));
    assert_eq!(raw(i64::MAX).saturating_sub(raw(-1)), raw(i64::MAX));
    assert_eq!(raw(0).saturating_sub(raw(i64::MIN)), raw(i64::MAX));
    assert_eq!(raw(-1).saturating_sub(raw(i64::MIN)), raw(i64::MAX));
    assert_eq!(raw(-2).saturating_sub(raw(i64::MIN)), raw(i64::MAX - 1));
}

#[test]
fn negation_clamps_the_lowest_value() {
    assert_eq!(whole(5).saturating_neg(), whole(-5));
    assert_eq!(whole(-5).saturating_neg(), whole(5));
    assert_eq!(raw(0).saturating_neg(), raw(0));
    assert_eq!(raw(i64::MAX).saturating_neg(), raw(-i64::MAX));
    assert_eq!(raw(i64::MIN).saturating_neg(), raw(i64::MAX));
}

#[test]
fn multiplication_of_whole_numbers_is_exact() {
    assert_eq!(whole(6).saturating_mul(whole(7)), whole(42));
    assert_eq!(whole(-6).saturating_mul(whole(7)), whole(-42));
    assert_eq!(whole(-6).saturating_mul(whole(-7)), whole(42));
    assert_eq!(whole(800).saturating_mul(whole(1)), whole(800));
    assert_eq!(whole(800).saturating_mul(whole(0)), whole(0));
}

#[test]
fn multiplication_by_a_half() {
    let half = raw(ONE / 2);
    assert_eq!(whole(5).saturating_mul(half), raw(5 * ONE / 2));
    assert_eq!(half.saturating_mul(half), raw(ONE / 4));
}

#[test]
fn multiplication_rounds_toward_zero() {
    let half = raw(ONE / 2);
    // Three grid steps times one half is one and a half grid steps.
    assert_eq!(raw(3).saturating_mul(half), raw(1));
    assert_eq!(raw(-3).saturating_mul(half), raw(-1));
    assert_eq!(raw(3).saturating_mul(half.saturating_neg()), raw(-1));
    assert_eq!(raw(-3).saturating_mul(half.saturating_neg()), raw(1));
    assert_eq!(raw(1).saturating_mul(half), raw(0));
    assert_eq!(raw(-1).saturating_mul(half), raw(0));
}

#[test]
fn multiplication_clamps_at_both_ends() {
    let big = whole(i32::MAX);
    assert_eq!(big.saturating_mul(big), raw(i64::MAX));
    assert_eq!(big.saturating_mul(big.saturating_neg()), raw(i64::MIN));
    assert_eq!(raw(i64::MIN).saturating_mul(raw(i64::MIN)), raw(i64::MAX));
    assert_eq!(raw(i64::MIN).saturating_mul(raw(i64::MAX)), raw(i64::MIN));
    assert_eq!(raw(i64::MIN).saturating_mul(whole(1)), raw(i64::MIN));
    assert_eq!(raw(i64::MAX).saturating_mul(whole(1)), raw(i64::MAX));
}

#[test]
fn division_of_whole_numbers() {
    assert_eq!(whole(42).saturating_div(whole(7)), whole(6));
    assert_eq!(whole(1600).saturating_div(whole(800)), whole(2));
    assert_eq!(whole(600).saturating_div(whole(600)), whole(1));
    assert_eq!(whole(1).saturating_div(whole(2)), raw(ONE / 2));
    assert_eq!(whole(0).saturating_div(whole(5)), whole(0));
}

#[test]
fn division_has_exact_expected_quotients() {
    assert_eq!(whole(1920).saturating_div(whole(800)), raw(10_307_921_510));
    assert_eq!(whole(1080).saturating_div(whole(600)), raw(7_730_941_132));
    assert_eq!(whole(2).saturating_div(whole(800)), raw(10_737_418));
    assert_eq!(whole(2).saturating_div(whole(600)), raw(14_316_557));
    assert_eq!(whole(1).saturating_div(whole(3)), raw(1_431_655_765));
}

#[test]
fn division_rounds_toward_zero_for_every_sign() {
    assert_eq!(whole(1).saturating_div(whole(3)), raw(1_431_655_765));
    assert_eq!(whole(-1).saturating_div(whole(3)), raw(-1_431_655_765));
    assert_eq!(whole(1).saturating_div(whole(-3)), raw(-1_431_655_765));
    assert_eq!(whole(-1).saturating_div(whole(-3)), raw(1_431_655_765));
    assert_eq!(raw(7).saturating_div(whole(2)), raw(3));
    assert_eq!(raw(-7).saturating_div(whole(2)), raw(-3));
    assert_eq!(raw(7).saturating_div(whole(-2)), raw(-3));
    assert_eq!(raw(-7).saturating_div(whole(-2)), raw(3));
}

#[test]
fn division_by_zero_follows_the_sign_of_the_dividend() {
    assert_eq!(whole(5).saturating_div(raw(0)), raw(i64::MAX));
    assert_eq!(raw(1).saturating_div(raw(0)), raw(i64::MAX));
    assert_eq!(whole(-5).saturating_div(raw(0)), raw(i64::MIN));
    assert_eq!(raw(-1).saturating_div(raw(0)), raw(i64::MIN));
    assert_eq!(raw(0).saturating_div(raw(0)), raw(0));
}

#[test]
fn division_clamps_at_both_ends() {
    assert_eq!(whole(i32::MAX).saturating_div(raw(1)), raw(i64::MAX));
    assert_eq!(whole(i32::MIN).saturating_div(raw(1)), raw(i64::MIN));
    assert_eq!(whole(i32::MAX).saturating_div(raw(-1)), raw(i64::MIN));
    assert_eq!(raw(i64::MIN).saturating_div(whole(-1)), raw(i64::MAX));
    assert_eq!(raw(i64::MIN).saturating_div(whole(1)), raw(i64::MIN));
    assert_eq!(raw(i64::MIN).saturating_div(raw(i64::MIN)), whole(1));
    assert_eq!(raw(i64::MAX).saturating_div(raw(i64::MAX)), whole(1));
}

#[test]
fn min_picks_the_smaller() {
    assert_eq!(whole(1).min(whole(2)), whole(1));
    assert_eq!(whole(2).min(whole(1)), whole(1));
    assert_eq!(whole(-2).min(whole(1)), whole(-2));
    assert_eq!(whole(3).min(whole(3)), whole(3));
    assert_eq!(raw(i64::MIN).min(raw(i64::MAX)), raw(i64::MIN));
}

#[test]
fn product_of_a_quotient_stays_below_the_dividend() {
    let third = whole(2).saturating_div(whole(3));
    assert_eq!(third.saturating_mul(whole(3)), raw(8_589_934_590));
    assert!(third.saturating_mul(whole(3)).raw <= TWO);
}
