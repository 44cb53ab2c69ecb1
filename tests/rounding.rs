use newnum::{Round, TruncRoot, WholeEquivalent};

#[test]
fn trunc_sqrt_rounds_down() {
    assert_eq!(TruncRoot::trunc_sqrt(0u32), 0);
    assert_eq!(TruncRoot::trunc_sqrt(1u32), 1);
    assert_eq!(TruncRoot::trunc_sqrt(2u32), 1);
    assert_eq!(TruncRoot::trunc_sqrt(15u32), 3);
    assert_eq!(TruncRoot::trunc_sqrt(16u32), 4);
    assert_eq!(TruncRoot::trunc_sqrt(17u32), 4);
    assert_eq!(TruncRoot::trunc_sqrt(255u8), 15);
    assert_eq!(TruncRoot::trunc_sqrt(i64::MAX), 3_037_000_499);
}

#[test]
fn trunc_sqrt_of_the_largest_values() {
    assert_eq!(TruncRoot::trunc_sqrt(u64::MAX), 4_294_967_295);
    assert_eq!(TruncRoot::trunc_sqrt(u128::MAX), 18_446_744_073_709_551_615);
    assert_eq!(TruncRoot::trunc_sqrt(i128::MAX), 13_043_817_825_332_782_212);
}

#[test]
fn trunc_cbrt_of_non_negative_values() {
    assert_eq!(TruncRoot::trunc_cbrt(0u16), 0);
    assert_eq!(TruncRoot::trunc_cbrt(7u16), 1);
    assert_eq!(TruncRoot::trunc_cbrt(8u16), 2);
    assert_eq!(TruncRoot::trunc_cbrt(26i32), 2);
    assert_eq!(TruncRoot::trunc_cbrt(27i32), 3);
    assert_eq!(TruncRoot::trunc_cbrt(u64::MAX), 2_642_245);
    assert_eq!(TruncRoot::trunc_cbrt(u128::MAX), 6_981_463_658_331);
}

#[test]
fn trunc_cbrt_of_negative_values_rounds_towards_zero() {
    assert_eq!(TruncRoot::trunc_cbrt(-1i32), -1);
    assert_eq!(TruncRoot::trunc_cbrt(-26i32), -2);
    assert_eq!(TruncRoot::trunc_cbrt(-27i32), -3);
    assert_eq!(TruncRoot::trunc_cbrt(-28i32), -3);
    assert_eq!(TruncRoot::trunc_cbrt(i8::MIN), -5);
    assert_eq!(TruncRoot::trunc_cbrt(i128::MIN), -5_541_191_377_756);
}

#[test]
fn whole_roots() {
    assert_eq!(WholeEquivalent::isqrt(99u64), 9);
    assert_eq!(WholeEquivalent::isqrt(100u64), 10);
    assert_eq!(WholeEquivalent::icbrt(-1000i16), -10);
    assert_eq!(WholeEquivalent::icbrt(999u16), 9);
}

#[test]
fn rounding_an_integer_keeps_it() {
    for x in [-7i32, 0, 7, i32::MIN, i32::MAX] {
        assert_eq!(Round::round(x), x);
        assert_eq!(Round::floor(x), x);
        assert_eq!(Round::ceil(x), x);
        assert_eq!(Round::trunc(x), x);
        assert_eq!(Round::atrunc(x), x);
        assert!(Round::floor(x) <= x && x <= Round::ceil(x));
    }
}

#[test]
fn trunc_equals_atrunc_on_non_negative_whole_numbers() {
    for x in [0u64, 1, 42, u64::MAX] {
        assert_eq!(Round::trunc(x), Round::atrunc(x));
    }
}

#[test]
fn fractional_part_of_an_integer_is_zero() {
    assert_eq!(Round::fract(7i32), 0);
    assert_eq!(Round::fract(-7i32), 0);
    assert_eq!(Round::fract(255u8), 0);
}

#[test]
fn rounding_to_the_whole_counterpart() {
    assert_eq!(WholeEquivalent::iround(5i8), 5);
    assert_eq!(WholeEquivalent::ifloor(-5i8), -5);
    assert_eq!(WholeEquivalent::iceil(5u16), 5);
    assert_eq!(WholeEquivalent::itrunc(-5i64), -5);
    assert_eq!(WholeEquivalent::iatrunc(5usize), 5);
}

#[test]
fn cube_root_of_a_negation_is_the_negated_cube_root() {
    for x in [1i64, 7, 8, 26, 27, 28, 1_000_000, i64::MAX] {
        assert_eq!(TruncRoot::trunc_cbrt(-x), -TruncRoot::trunc_cbrt(x));
    }
}
