use newnum::{
    num, num_approx, AbsDiff, Bounded, FromIntLiteral, MinMax, Num, TypeMax, TypeMin,
};

#[test]
fn abs_diff_of_unsigned() {
    assert_eq!(AbsDiff::abs_diff(10u8, 20u8), 10);
    assert_eq!(AbsDiff::abs_diff(20u8, 10u8), 10);
    assert_eq!(AbsDiff::abs_diff(0u8, 255u8), 255);
    assert_eq!(AbsDiff::abs_diff(u128::MAX, 0u128), u128::MAX);
    assert_eq!(AbsDiff::abs_diff(7usize, 7usize), 0);
}

#[test]
fn abs_diff_of_signed() {
    assert_eq!(AbsDiff::abs_diff(10i32, 20i32), 10);
    assert_eq!(AbsDiff::abs_diff(-10i32, 20i32), 30);
    assert_eq!(AbsDiff::abs_diff(20i64, -10i64), 30);
    assert_eq!(AbsDiff::abs_diff(-100i8, 27i8), 127);
    assert_eq!(AbsDiff::abs_diff(-5i16, -5i16), 0);
}

#[test]
fn min_and_max() {
    assert_eq!(MinMax::min(3u32, 9u32), 3);
    assert_eq!(MinMax::min(9u32, 3u32), 3);
    assert_eq!(MinMax::max(-3i32, -9i32), -3);
    assert_eq!(MinMax::max(i64::MIN, i64::MAX), i64::MAX);
    assert_eq!(MinMax::min(4u8, 4u8), 4);
}

#[test]
fn clamp_holds_within_bounds() {
    assert_eq!(MinMax::clamp(5i32, 7, 9), 7);
    assert_eq!(MinMax::clamp(8i32, 7, 9), 8);
    assert_eq!(MinMax::clamp(12i32, 7, 9), 9);
    assert_eq!(MinMax::clamp(7u8, 7, 9), 7);
    assert_eq!(MinMax::clamp(9u8, 7, 9), 9);
}

#[test]
fn clamp_with_crossed_bounds_looks_at_min_first() {
    assert_eq!(MinMax::clamp(5i32, 10, 0), 10);
    assert_eq!(MinMax::clamp(20i32, 10, 0), 0);
}

#[test]
fn type_bounds() {
    assert_eq!(<u8 as TypeMin>::type_min(), 0);
    assert_eq!(<u8 as TypeMax>::type_max(), 255);
    assert_eq!(<i16 as TypeMin>::type_min(), i16::MIN);
    assert_eq!(<i16 as TypeMax>::type_max(), i16::MAX);
    assert_eq!(<u128 as TypeMax>::type_max(), u128::MAX);
}

fn span<T: Bounded + AbsDiff<Output = T>>() -> T {
    AbsDiff::abs_diff(T::type_max(), T::type_min())
}

#[test]
fn bounded_span_of_unsigned() {
    assert_eq!(span::<u16>(), u16::MAX);
}

#[test]
fn literal_bounds() {
    assert_eq!(<u8 as FromIntLiteral>::min_literal(), 0);
    assert_eq!(<u8 as FromIntLiteral>::max_literal(), 255);
    assert_eq!(<i8 as FromIntLiteral>::max_literal(), 127);
    assert_eq!(<i64 as FromIntLiteral>::max_approx_literal(), i64::MAX as u128);
    assert_eq!(<u128 as FromIntLiteral>::max_literal(), u128::MAX);
}

#[test]
fn num_converts_literals_in_range() {
    assert_eq!(num::<u8>(0), Some(0u8));
    assert_eq!(num::<u8>(255), Some(255u8));
    assert_eq!(num::<i8>(127), Some(127i8));
    assert_eq!(num::<u128>(u128::MAX), Some(u128::MAX));
    assert_eq!(num::<i32>(1_000_000), Some(1_000_000i32));
}

#[test]
fn num_refuses_literals_out_of_range() {
    assert_eq!(num::<u8>(256), None);
    assert_eq!(num::<i8>(128), None);
    assert_eq!(num::<i64>(u64::MAX as u128), None);
    assert_eq!(num_approx::<u16>(65_536), None);
    assert_eq!(num_approx::<u16>(65_535), Some(65_535u16));
}

fn midpoint<T: Num + Copy>(a: T, b: T) -> T {
    let two = num::<T>(2).unwrap();
    MinMax::min(a, b) + AbsDiff::abs_diff(a, b) / two
}

#[test]
fn generic_code_over_num() {
    assert_eq!(midpoint(10u32, 20u32), 15);
    assert_eq!(midpoint(-10i32, 20i32), 5);
    assert_eq!(midpoint(200u8, 100u8), 150);
}
