use newnum::{
    BitSign, Negative, NotNegative, Positive, PositiveOrZero, Sign, Signed, Signum, Zero,
};

#[test]
fn sign_negation_swaps_positive_and_negative() {
    assert_eq!(-Sign::Negative, Sign::Positive);
    assert_eq!(-Sign::Zero, Sign::Zero);
    assert_eq!(-Sign::Positive, Sign::Negative);
    assert_eq!(-BitSign::Negative, BitSign::Positive);
    assert_eq!(-BitSign::Positive, BitSign::Negative);
}

#[test]
fn sign_product_table() {
    let (n, z, p) = (Sign::Negative, Sign::Zero, Sign::Positive);
    assert_eq!(n * n, p);
    assert_eq!(n * z, z);
    assert_eq!(n * p, n);
    assert_eq!(z * n, z);
    assert_eq!(z * z, z);
    assert_eq!(z * p, z);
    assert_eq!(p * n, n);
    assert_eq!(p * z, z);
    assert_eq!(p * p, p);
}

#[test]
fn bit_sign_product_table() {
    let (n, p) = (BitSign::Negative, BitSign::Positive);
    assert_eq!(n * n, p);
    assert_eq!(n * p, n);
    assert_eq!(p * n, n);
    assert_eq!(p * p, p);
}

#[test]
fn sign_queries_on_signed_integers() {
    assert!(Signed::is_positive(&5i32));
    assert!(!Signed::is_positive(&0i32));
    assert!(!Signed::is_positive(&-5i32));
    assert!(Signed::is_negative(&-5i64));
    assert!(!Signed::is_negative(&0i64));
    assert!(Signed::is_zero(&0i8));
    assert!(!Signed::is_zero(&i8::MIN));
    assert!(Signed::is_sign_positive(&0i16));
    assert!(!Signed::is_sign_negative(&0i16));
    assert!(Signed::is_sign_negative(&-1isize));
}

#[test]
fn sign_queries_on_unsigned_integers() {
    assert!(Signed::is_positive(&1u8));
    assert!(!Signed::is_positive(&0u8));
    assert!(!Signed::is_negative(&u64::MAX));
    assert!(Signed::is_zero(&0usize));
    assert!(Signed::is_sign_positive(&0u128));
    assert!(!Signed::is_sign_negative(&0u128));
}

#[test]
fn abs_and_neg_abs() {
    assert_eq!(Positive::abs(-7i32), 7);
    assert_eq!(Positive::abs(7i32), 7);
    assert_eq!(Positive::abs(i8::MAX), 127);
    assert_eq!(Positive::abs(-127i8), 127);
    assert_eq!(Positive::abs(9u16), 9);
    assert_eq!(Negative::neg_abs(7i32), -7);
    assert_eq!(Negative::neg_abs(-7i32), -7);
    assert_eq!(Negative::neg_abs(0i64), 0);
    assert_eq!(Negative::neg_abs(i128::MIN), i128::MIN);
    assert_eq!(Negative::neg_abs(i128::MAX), -i128::MAX);
}

#[test]
fn signum_counts_zero_apart() {
    assert_eq!(Signum::signum(-9i32), -1);
    assert_eq!(Signum::signum(0i32), 0);
    assert_eq!(Signum::signum(9i32), 1);
    assert_eq!(Signum::signum(i8::MIN), -1);
    assert_eq!(Signum::signum(0u8), 0);
    assert_eq!(Signum::signum(200u8), 1);
}

#[test]
fn signumf_counts_zero_as_positive() {
    assert_eq!(Signum::signumf(-9i32), -1);
    assert_eq!(Signum::signumf(0i32), 1);
    assert_eq!(Signum::signumf(9i32), 1);
    assert_eq!(Signum::signumf(0u32), 1);
    assert_eq!(Signum::signumf(u32::MAX), 1);
}

#[test]
fn zero_of_each_kind() {
    assert_eq!(<u8 as Zero>::zero(), 0);
    assert_eq!(<i128 as Zero>::zero(), 0);
}

fn count_non_negative<T: PositiveOrZero + NotNegative + Signed<BoolMapped = bool>>(values: &[T]) -> usize {
    values
        .iter()
        .filter(|v| Signed::is_sign_positive(*v))
        .count()
}

#[test]
fn unsigned_types_are_positive_or_zero() {
    assert_eq!(count_non_negative(&[0u8, 1, 255]), 3);
}

#[test]
fn signum_of_a_product_is_the_product_of_signums() {
    let values = [-12i32, -1, 0, 1, 12];
    for a in values {
        for b in values {
            assert_eq!(
                Signum::signum(a * b),
                Signum::signum(a) * Signum::signum(b)
            );
        }
    }
}

#[test]
fn signs_order_from_negative_to_positive() {
    assert!(Sign::Negative < Sign::Zero);
    assert!(Sign::Zero < Sign::Positive);
    assert!(BitSign::Negative < BitSign::Positive);
}
