use vstd::prelude::*;

use crate::sign::{BitSign, Sign};

verus! {

/// `|x|`.
pub open spec fn abs_int(x: int) -> int {
    if x < 0 {
        -x
    } else {
        x
    }
}

/// Types that have a mathematical sign: a number or a number container.
///
/// The type need not hold positive, negative and zero values alike, so there is
/// no `abs` here: a type with only negative values has no positive result to give.
pub trait Signed: Sized {
    /// The `bool` counterpart of `Self`: `bool` for a number, the container
    /// mapped to `bool` for a container (`Vec2<bool>` for a `Vec2<T>`).
    type BoolMapped;

    /// What `is_positive` returns.
    spec fn is_positive_spec(&self) -> Self::BoolMapped;

    /// Whether `self` is larger than zero. A zero is never positive, even a
    /// float zero that carries a positive sign.
    fn is_positive(&self) -> (r: Self::BoolMapped)
        ensures
            r == self.is_positive_spec(),
    ;

    /// What `is_negative` returns.
    spec fn is_negative_spec(&self) -> Self::BoolMapped;

    /// Whether `self` is smaller than zero. A zero is never negative, even a
    /// float zero that carries a negative sign.
    fn is_negative(&self) -> (r: Self::BoolMapped)
        ensures
            r == self.is_negative_spec(),
    ;

    /// What `is_zero` returns.
    spec fn is_zero_spec(&self) -> Self::BoolMapped;

    /// Whether `self` is zero.
    fn is_zero(&self) -> (r: Self::BoolMapped)
        ensures
            r == self.is_zero_spec(),
    ;

    /// What `is_sign_positive` returns.
    spec fn is_sign_positive_spec(&self) -> Self::BoolMapped;

    /// Whether the sign of `self` is positive. A type that keeps no sign on its
    /// zero counts zero as positive.
    fn is_sign_positive(&self) -> (r: Self::BoolMapped)
        ensures
            r == self.is_sign_positive_spec(),
    ;

    /// What `is_sign_negative` returns.
    spec fn is_sign_negative_spec(&self) -> Self::BoolMapped;

    /// Whether the sign of `self` is negative. A type that keeps no sign on its
    /// zero counts zero as positive.
    fn is_sign_negative(&self) -> (r: Self::BoolMapped)
        ensures
            r == self.is_sign_negative_spec(),
    ;
}

/// Types that can hold positive values (not only positive ones: see [`OnlyPositive`]).
pub trait Positive: Signed {
    /// Whether the absolute value of `self` can be held by the type.
    spec fn has_abs(self) -> bool;

    /// What `abs` returns.
    spec fn abs_spec(self) -> Self;

    /// The absolute value.
    fn abs(self) -> (r: Self)
        requires
            self.has_abs(),
        ensures
            r == self.abs_spec(),
    ;
}

/// Types that can hold negative values (not only negative ones: see [`OnlyNegative`]).
pub trait Negative: Signed {
    /// What `neg_abs` returns.
    spec fn neg_abs_spec(self) -> Self;

    /// The negated absolute value, `-|self|`.
    fn neg_abs(self) -> (r: Self)
        ensures
            r == self.neg_abs_spec(),
    ;
}

/// Types that can hold zero.
pub trait Zero: Signed {
    /// What `zero` returns.
    spec fn zero_spec() -> Self;

    fn zero() -> (r: Self)
        ensures
            r == Self::zero_spec(),
    ;
}

/// Types that cannot hold positive values: every value is `<= 0`.
pub trait NotPositive: Signed {
}

/// Types that cannot hold negative values: every value is `>= 0`.
pub trait NotNegative: Signed {
}

/// Types that cannot hold zero: every value is `!= 0`.
pub trait NotZero: Signed {
}

/// Types whose values are all positive (`> 0`). Implemented for every
/// `Positive + NotNegative + NotZero` type.
pub trait OnlyPositive: NotNegative + NotZero + Positive {
}

/// Types whose values are all negative (`< 0`). Implemented for every
/// `Negative + NotPositive + NotZero` type.
pub trait OnlyNegative: Negative + NotZero + NotPositive {
}

/// Types whose one value is zero, such as zero-sized types. Implemented for
/// every `Zero + NotPositive + NotNegative` type.
pub trait OnlyZero: NotNegative + NotPositive + Zero {
}

/// Types whose values are positive or zero (`>= 0`): the unsigned numbers.
/// Implemented for every `Positive + Zero + NotNegative` type.
pub trait PositiveOrZero: NotNegative + Zero + Positive {
}

/// Types whose values are negative or zero (`<= 0`). Implemented for every
/// `Negative + Zero + NotPositive` type.
pub trait NegativeOrZero: Negative + Zero + NotPositive {
}

/// Types whose values are positive or negative, never zero. Implemented for
/// every `Positive + Negative + NotZero` type.
pub trait PositiveOrNegative: Negative + NotZero + Positive {
}

/// Types that hold positive values, negative values and zero: the signed
/// numbers. Implemented for every `Positive + Negative + Zero` type.
pub trait FullySigned: Negative + Zero + Positive {
}

impl<T: NotNegative + NotZero + Positive> OnlyPositive for T {
}

impl<T: NotZero + NotPositive + Negative> OnlyNegative for T {
}

impl<T: NotNegative + NotPositive + Zero> OnlyZero for T {
}

impl<T: NotNegative + Zero + Positive> PositiveOrZero for T {
}

impl<T: Negative + Zero + NotPositive> NegativeOrZero for T {
}

impl<T: Negative + NotZero + Positive> PositiveOrNegative for T {
}

impl<T: Negative + Zero + Positive> FullySigned for T {
}

/// Sign functions that return a value of `Self`.
pub trait Signum: Signed {
    /// What `signumf` returns.
    spec fn signumf_spec(self) -> Self;

    /// `1` for a positive sign and `-1` for a negative one. A zero goes by the
    /// sign it carries, and a type that keeps no sign on its zero counts it as positive.
    fn signumf(self) -> (r: Self)
        ensures
            r == self.signumf_spec(),
    ;

    /// What `signum` returns.
    spec fn signum_spec(self) -> Self;

    /// `1` above zero, `-1` below zero and `0` at zero, whatever sign a zero carries.
    fn signum(self) -> (r: Self)
        where
            Self: Zero,
        ensures
            r == self.signum_spec(),
    ;
}

impl Signed for u8 {
    type BoolMapped = bool;

    open spec fn is_positive_spec(&self) -> bool {
        *self > 0
    }

    fn is_positive(&self) -> bool {
        *self != 0
    }

    open spec fn is_negative_spec(&self) -> bool {
        *self < 0
    }

    fn is_negative(&self) -> bool {
        false
    }

    open spec fn is_zero_spec(&self) -> bool {
        *self == 0
    }

    fn is_zero(&self) -> bool {
        *self == 0
    }

    open spec fn is_sign_positive_spec(&self) -> bool {
        *self >= 0
    }

    fn is_sign_positive(&self) -> bool {
        true
    }

    open spec fn is_sign_negative_spec(&self) -> bool {
        *self < 0
    }

    fn is_sign_negative(&self) -> bool {
        false
    }
}

impl Zero for u8 {
    open spec fn zero_spec() -> u8 {
        0
    }

    fn zero() -> u8 {
        0
    }
}

impl Positive for u8 {
    open spec fn has_abs(self) -> bool {
        true
    }

    open spec fn abs_spec(self) -> u8 {
        abs_int(self as int) as u8
    }

    fn abs(self) -> u8 {
        self
    }
}

impl NotNegative for u8 {
}

impl Signum for u8 {
    open spec fn signumf_spec(self) -> u8 {
        BitSign::of(self as int).to_int() as u8
    }

    fn signumf(self) -> u8 {
        1
    }

    open spec fn signum_spec(self) -> u8 {
        Sign::of(self as int).to_int() as u8
    }

    fn signum(self) -> u8 {
        if self != 0 {
            1
        } else {
            0
        }
    }
}

impl Signed for u16 {
    type BoolMapped = bool;

    open spec fn is_positive_spec(&self) -> bool {
        *self > 0
    }

    fn is_positive(&self) -> bool {
        *self != 0
    }

    open spec fn is_negative_spec(&self) -> bool {
        *self < 0
    }

    fn is_negative(&self) -> bool {
        false
    }

    open spec fn is_zero_spec(&self) -> bool {
        *self == 0
    }

    fn is_zero(&self) -> bool {
        *self == 0
    }

    open spec fn is_sign_positive_spec(&self) -> bool {
        *self >= 0
    }

    fn is_sign_positive(&self) -> bool {
        true
    }

    open spec fn is_sign_negative_spec(&self) -> bool {
        *self < 0
    }

    fn is_sign_negative(&self) -> bool {
        false
    }
}

impl Zero for u16 {
    open spec fn zero_spec() -> u16 {
        0
    }

    fn zero() -> u16 {
        0
    }
}

impl Positive for u16 {
    open spec fn has_abs(self) -> bool {
        true
    }

    open spec fn abs_spec(self) -> u16 {
        abs_int(self as int) as u16
    }

    fn abs(self) -> u16 {
        self
    }
}

impl NotNegative for u16 {
}

impl Signum for u16 {
    open spec fn signumf_spec(self) -> u16 {
        BitSign::of(self as int).to_int() as u16
    }

    fn signumf(self) -> u16 {
        1
    }

    open spec fn signum_spec(self) -> u16 {
        Sign::of(self as int).to_int() as u16
    }

    fn signum(self) -> u16 {
        if self != 0 {
            1
        } else {
            0
        }
    }
}

impl Signed for u32 {
    type BoolMapped = bool;

    open spec fn is_positive_spec(&self) -> bool {
        *self > 0
    }

    fn is_positive(&self) -> bool {
        *self != 0
    }

    open spec fn is_negative_spec(&self) -> bool {
        *self < 0
    }

    fn is_negative(&self) -> bool {
        false
    }

    open spec fn is_zero_spec(&self) -> bool {
        *self == 0
    }

    fn is_zero(&self) -> bool {
        *self == 0
    }

    open spec fn is_sign_positive_spec(&self) -> bool {
        *self >= 0
    }

    fn is_sign_positive(&self) -> bool {
        true
    }

    open spec fn is_sign_negative_spec(&self) -> bool {
        *self < 0
    }

    fn is_sign_negative(&self) -> bool {
        false
    }
}

impl Zero for u32 {
    open spec fn zero_spec() -> u32 {
        0
    }

    fn zero() -> u32 {
        0
    }
}

impl Positive for u32 {
    open spec fn has_abs(self) -> bool {
        true
    }

    open spec fn abs_spec(self) -> u32 {
        abs_int(self as int) as u32
    }

    fn abs(self) -> u32 {
        self
    }
}

impl NotNegative for u32 {
}

impl Signum for u32 {
    open spec fn signumf_spec(self) -> u32 {
        BitSign::of(self as int).to_int() as u32
    }

    fn signumf(self) -> u32 {
        1
    }

    open spec fn signum_spec(self) -> u32 {
        Sign::of(self as int).to_int() as u32
    }

    fn signum(self) -> u32 {
        if self != 0 {
            1
        } else {
            0
        }
    }
}

impl Signed for u64 {
    type BoolMapped = bool;

    open spec fn is_positive_spec(&self) -> bool {
        *self > 0
    }

    fn is_positive(&self) -> bool {
        *self != 0
    }

    open spec fn is_negative_spec(&self) -> bool {
        *self < 0
    }

    fn is_negative(&self) -> bool {
        false
    }

    open spec fn is_zero_spec(&self) -> bool {
        *self == 0
    }

    fn is_zero(&self) -> bool {
        *self == 0
    }

    open spec fn is_sign_positive_spec(&self) -> bool {
        *self >= 0
    }

    fn is_sign_positive(&self) -> bool {
        true
    }

    open spec fn is_sign_negative_spec(&self) -> bool {
        *self < 0
    }

    fn is_sign_negative(&self) -> bool {
        false
    }
}

impl Zero for u64 {
    open spec fn zero_spec() -> u64 {
        0
    }

    fn zero() -> u64 {
        0
    }
}

impl Positive for u64 {
    open spec fn has_abs(self) -> bool {
        true
    }

    open spec fn abs_spec(self) -> u64 {
        abs_int(self as int) as u64
    }

    fn abs(self) -> u64 {
        self
    }
}

impl NotNegative for u64 {
}

impl Signum for u64 {
    open spec fn signumf_spec(self) -> u64 {
        BitSign::of(self as int).to_int() as u64
    }

    fn signumf(self) -> u64 {
        1
    }

    open spec fn signum_spec(self) -> u64 {
        Sign::of(self as int).to_int() as u64
    }

    fn signum(self) -> u64 {
        if self != 0 {
            1
        } else {
            0
        }
    }
}

impl Signed for u128 {
    type BoolMapped = bool;

    open spec fn is_positive_spec(&self) -> bool {
        *self > 0
    }

    fn is_positive(&self) -> bool {
        *self != 0
    }

    open spec fn is_negative_spec(&self) -> bool {
        *self < 0
    }

    fn is_negative(&self) -> bool {
        false
    }

    open spec fn is_zero_spec(&self) -> bool {
        *self == 0
    }

    fn is_zero(&self) -> bool {
        *self == 0
    }

    open spec fn is_sign_positive_spec(&self) -> bool {
        *self >= 0
    }

    fn is_sign_positive(&self) -> bool {
        true
    }

    open spec fn is_sign_negative_spec(&self) -> bool {
        *self < 0
    }

    fn is_sign_negative(&self) -> bool {
        false
    }
}

impl Zero for u128 {
    open spec fn zero_spec() -> u128 {
        0
    }

    fn zero() -> u128 {
        0
    }
}

impl Positive for u128 {
    open spec fn has_abs(self) -> bool {
        true
    }

    open spec fn abs_spec(self) -> u128 {
        abs_int(self as int) as u128
    }

    fn abs(self) -> u128 {
        self
    }
}

impl NotNegative for u128 {
}

impl Signum for u128 {
    open spec fn signumf_spec(self) -> u128 {
        BitSign::of(self as int).to_int() as u128
    }

    fn signumf(self) -> u128 {
        1
    }

    open spec fn signum_spec(self) -> u128 {
        Sign::of(self as int).to_int() as u128
    }

    fn signum(self) -> u128 {
        if self != 0 {
            1
        } else {
            0
        }
    }
}

impl Signed for usize {
    type BoolMapped = bool;

    open spec fn is_positive_spec(&self) -> bool {
        *self > 0
    }

    fn is_positive(&self) -> bool {
        *self != 0
    }

    open spec fn is_negative_spec(&self) -> bool {
        *self < 0
    }

    fn is_negative(&self) -> bool {
        false
    }

    open spec fn is_zero_spec(&self) -> bool {
        *self == 0
    }

    fn is_zero(&self) -> bool {
        *self == 0
    }

    open spec fn is_sign_positive_spec(&self) -> bool {
        *self >= 0
    }

    fn is_sign_positive(&self) -> bool {
        true
    }

    open spec fn is_sign_negative_spec(&self) -> bool {
        *self < 0
    }

    fn is_sign_negative(&self) -> bool {
        false
    }
}

impl Zero for usize {
    open spec fn zero_spec() -> usize {
        0
    }

    fn zero() -> usize {
        0
    }
}

impl Positive for usize {
    open spec fn has_abs(self) -> bool {
        true
    }

    open spec fn abs_spec(self) -> usize {
        abs_int(self as int) as usize
    }

    fn abs(self) -> usize {
        self
    }
}

impl NotNegative for usize {
}

impl Signum for usize {
    open spec fn signumf_spec(self) -> usize {
        BitSign::of(self as int).to_int() as usize
    }

    fn signumf(self) -> usize {
        1
    }

    open spec fn signum_spec(self) -> usize {
        Sign::of(self as int).to_int() as usize
    }

    fn signum(self) -> usize {
        if self != 0 {
            1
        } else {
            0
        }
    }
}

impl Signed for i8 {
    type BoolMapped = bool;

    open spec fn is_positive_spec(&self) -> bool {
        *self > 0
    }

    fn is_positive(&self) -> bool {
        *self > 0
    }

    open spec fn is_negative_spec(&self) -> bool {
        *self < 0
    }

    fn is_negative(&self) -> bool {
        *self < 0
    }

    open spec fn is_zero_spec(&self) -> bool {
        *self == 0
    }

    fn is_zero(&self) -> bool {
        *self == 0
    }

    open spec fn is_sign_positive_spec(&self) -> bool {
        *self >= 0
    }

    fn is_sign_positive(&self) -> bool {
        *self >= 0
    }

    open spec fn is_sign_negative_spec(&self) -> bool {
        *self < 0
    }

    fn is_sign_negative(&self) -> bool {
        *self < 0
    }
}

impl Zero for i8 {
    open spec fn zero_spec() -> i8 {
        0
    }

    fn zero() -> i8 {
        0
    }
}

impl Positive for i8 {
    open spec fn has_abs(self) -> bool {
        self != i8::MIN
    }

    open spec fn abs_spec(self) -> i8 {
        abs_int(self as int) as i8
    }

    fn abs(self) -> i8 {
        if self < 0 {
            -self
        } else {
            self
        }
    }
}

impl Negative for i8 {
    open spec fn neg_abs_spec(self) -> i8 {
        -abs_int(self as int) as i8
    }

    fn neg_abs(self) -> i8 {
        if self > 0 {
            -self
        } else {
            self
        }
    }
}

impl Signum for i8 {
    open spec fn signumf_spec(self) -> i8 {
        BitSign::of(self as int).to_int() as i8
    }

    fn signumf(self) -> i8 {
        if self >= 0 {
            1
        } else {
            -1
        }
    }

    open spec fn signum_spec(self) -> i8 {
        Sign::of(self as int).to_int() as i8
    }

    fn signum(self) -> i8 {
        if self > 0 {
            1
        } else if self < 0 {
            -1
        } else {
            0
        }
    }
}

impl Signed for i16 {
    type BoolMapped = bool;

    open spec fn is_positive_spec(&self) -> bool {
        *self > 0
    }

    fn is_positive(&self) -> bool {
        *self > 0
    }

    open spec fn is_negative_spec(&self) -> bool {
        *self < 0
    }

    fn is_negative(&self) -> bool {
        *self < 0
    }

    open spec fn is_zero_spec(&self) -> bool {
        *self == 0
    }

    fn is_zero(&self) -> bool {
        *self == 0
    }

    open spec fn is_sign_positive_spec(&self) -> bool {
        *self >= 0
    }

    fn is_sign_positive(&self) -> bool {
        *self >= 0
    }

    open spec fn is_sign_negative_spec(&self) -> bool {
        *self < 0
    }

    fn is_sign_negative(&self) -> bool {
        *self < 0
    }
}

impl Zero for i16 {
    open spec fn zero_spec() -> i16 {
        0
    }

    fn zero() -> i16 {
        0
    }
}

impl Positive for i16 {
    open spec fn has_abs(self) -> bool {
        self != i16::MIN
    }

    open spec fn abs_spec(self) -> i16 {
        abs_int(self as int) as i16
    }

    fn abs(self) -> i16 {
        if self < 0 {
            -self
        } else {
            self
        }
    }
}

impl Negative for i16 {
    open spec fn neg_abs_spec(self) -> i16 {
        -abs_int(self as int) as i16
    }

    fn neg_abs(self) -> i16 {
        if self > 0 {
            -self
        } else {
            self
        }
    }
}

impl Signum for i16 {
    open spec fn signumf_spec(self) -> i16 {
        BitSign::of(self as int).to_int() as i16
    }

    fn signumf(self) -> i16 {
        if self >= 0 {
            1
        } else {
            -1
        }
    }

    open spec fn signum_spec(self) -> i16 {
        Sign::of(self as int).to_int() as i16
    }

    fn signum(self) -> i16 {
        if self > 0 {
            1
        } else if self < 0 {
            -1
        } else {
            0
        }
    }
}

impl Signed for i32 {
    type BoolMapped = bool;

    open spec fn is_positive_spec(&self) -> bool {
        *self > 0
    }

    fn is_positive(&self) -> bool {
        *self > 0
    }

    open spec fn is_negative_spec(&self) -> bool {
        *self < 0
    }

    fn is_negative(&self) -> bool {
        *self < 0
    }

    open spec fn is_zero_spec(&self) -> bool {
        *self == 0
    }

    fn is_zero(&self) -> bool {
        *self == 0
    }

    open spec fn is_sign_positive_spec(&self) -> bool {
        *self >= 0
    }

    fn is_sign_positive(&self) -> bool {
        *self >= 0
    }

    open spec fn is_sign_negative_spec(&self) -> bool {
        *self < 0
    }

    fn is_sign_negative(&self) -> bool {
        *self < 0
    }
}

impl Zero for i32 {
    open spec fn zero_spec() -> i32 {
        0
    }

    fn zero() -> i32 {
        0
    }
}

impl Positive for i32 {
    open spec fn has_abs(self) -> bool {
        self != i32::MIN
    }

    open spec fn abs_spec(self) -> i32 {
        abs_int(self as int) as i32
    }

    fn abs(self) -> i32 {
        if self < 0 {
            -self
        } else {
            self
        }
    }
}

impl Negative for i32 {
    open spec fn neg_abs_spec(self) -> i32 {
        -abs_int(self as int) as i32
    }

    fn neg_abs(self) -> i32 {
        if self > 0 {
            -self
        } else {
            self
        }
    }
}

impl Signum for i32 {
    open spec fn signumf_spec(self) -> i32 {
        BitSign::of(self as int).to_int() as i32
    }

    fn signumf(self) -> i32 {
        if self >= 0 {
            1
        } else {
            -1
        }
    }

    open spec fn signum_spec(self) -> i32 {
        Sign::of(self as int).to_int() as i32
    }

    fn signum(self) -> i32 {
        if self > 0 {
            1
        } else if self < 0 {
            -1
        } else {
            0
        }
    }
}

impl Signed for i64 {
    type BoolMapped = bool;

    open spec fn is_positive_spec(&self) -> bool {
        *self > 0
    }

    fn is_positive(&self) -> bool {
        *self > 0
    }

    open spec fn is_negative_spec(&self) -> bool {
        *self < 0
    }

    fn is_negative(&self) -> bool {
        *self < 0
    }

    open spec fn is_zero_spec(&self) -> bool {
        *self == 0
    }

    fn is_zero(&self) -> bool {
        *self == 0
    }

    open spec fn is_sign_positive_spec(&self) -> bool {
        *self >= 0
    }

    fn is_sign_positive(&self) -> bool {
        *self >= 0
    }

    open spec fn is_sign_negative_spec(&self) -> bool {
        *self < 0
    }

    fn is_sign_negative(&self) -> bool {
        *self < 0
    }
}

impl Zero for i64 {
    open spec fn zero_spec() -> i64 {
        0
    }

    fn zero() -> i64 {
        0
    }
}

impl Positive for i64 {
    open spec fn has_abs(self) -> bool {
        self != i64::MIN
    }

    open spec fn abs_spec(self) -> i64 {
        abs_int(self as int) as i64
    }

    fn abs(self) -> i64 {
        if self < 0 {
            -self
        } else {
            self
        }
    }
}

impl Negative for i64 {
    open spec fn neg_abs_spec(self) -> i64 {
        -abs_int(self as int) as i64
    }

    fn neg_abs(self) -> i64 {
        if self > 0 {
            -self
        } else {
            self
        }
    }
}

impl Signum for i64 {
    open spec fn signumf_spec(self) -> i64 {
        BitSign::of(self as int).to_int() as i64
    }

    fn signumf(self) -> i64 {
        if self >= 0 {
            1
        } else {
            -1
        }
    }

    open spec fn signum_spec(self) -> i64 {
        Sign::of(self as int).to_int() as i64
    }

    fn signum(self) -> i64 {
        if self > 0 {
            1
        } else if self < 0 {
            -1
        } else {
            0
        }
    }
}

impl Signed for i128 {
    type BoolMapped = bool;

    open spec fn is_positive_spec(&self) -> bool {
        *self > 0
    }

    fn is_positive(&self) -> bool {
        *self > 0
    }

    open spec fn is_negative_spec(&self) -> bool {
        *self < 0
    }

    fn is_negative(&self) -> bool {
        *self < 0
    }

    open spec fn is_zero_spec(&self) -> bool {
        *self == 0
    }

    fn is_zero(&self) -> bool {
        *self == 0
    }

    open spec fn is_sign_positive_spec(&self) -> bool {
        *self >= 0
    }

    fn is_sign_positive(&self) -> bool {
        *self >= 0
    }

    open spec fn is_sign_negative_spec(&self) -> bool {
        *self < 0
    }

    fn is_sign_negative(&self) -> bool {
        *self < 0
    }
}

impl Zero for i128 {
    open spec fn zero_spec() -> i128 {
        0
    }

    fn zero() -> i128 {
        0
    }
}

impl Positive for i128 {
    open spec fn has_abs(self) -> bool {
        self != i128::MIN
    }

    open spec fn abs_spec(self) -> i128 {
        abs_int(self as int) as i128
    }

    fn abs(self) -> i128 {
        if self < 0 {
            -self
        } else {
            self
        }
    }
}

impl Negative for i128 {
    open spec fn neg_abs_spec(self) -> i128 {
        -abs_int(self as int) as i128
    }

    fn neg_abs(self) -> i128 {
        if self > 0 {
            -self
        } else {
            self
        }
    }
}

impl Signum for i128 {
    open spec fn signumf_spec(self) -> i128 {
        BitSign::of(self as int).to_int() as i128
    }

    fn signumf(self) -> i128 {
        if self >= 0 {
            1
        } else {
            -1
        }
    }

    open spec fn signum_spec(self) -> i128 {
        Sign::of(self as int).to_int() as i128
    }

    fn signum(self) -> i128 {
        if self > 0 {
            1
        } else if self < 0 {
            -1
        } else {
            0
        }
    }
}

impl Signed for isize {
    type BoolMapped = bool;

    open spec fn is_positive_spec(&self) -> bool {
        *self > 0
    }

    fn is_positive(&self) -> bool {
        *self > 0
    }

    open spec fn is_negative_spec(&self) -> bool {
        *self < 0
    }

    fn is_negative(&self) -> bool {
        *self < 0
    }

    open spec fn is_zero_spec(&self) -> bool {
        *self == 0
    }

    fn is_zero(&self) -> bool {
        *self == 0
    }

    open spec fn is_sign_positive_spec(&self) -> bool {
        *self >= 0
    }

    fn is_sign_positive(&self) -> bool {
        *self >= 0
    }

    open spec fn is_sign_negative_spec(&self) -> bool {
        *self < 0
    }

    fn is_sign_negative(&self) -> bool {
        *self < 0
    }
}

impl Zero for isize {
    open spec fn zero_spec() -> isize {
        0
    }

    fn zero() -> isize {
        0
    }
}

impl Positive for isize {
    open spec fn has_abs(self) -> bool {
        self != isize::MIN
    }

    open spec fn abs_spec(self) -> isize {
        abs_int(self as int) as isize
    }

    fn abs(self) -> isize {
        if self < 0 {
            -self
        } else {
            self
        }
    }
}

impl Negative for isize {
    open spec fn neg_abs_spec(self) -> isize {
        -abs_int(self as int) as isize
    }

    fn neg_abs(self) -> isize {
        if self > 0 {
            -self
        } else {
            self
        }
    }
}

impl Signum for isize {
    open spec fn signumf_spec(self) -> isize {
        BitSign::of(self as int).to_int() as isize
    }

    fn signumf(self) -> isize {
        if self >= 0 {
            1
        } else {
            -1
        }
    }

    open spec fn signum_spec(self) -> isize {
        Sign::of(self as int).to_int() as isize
    }

    fn signum(self) -> isize {
        if self > 0 {
            1
        } else if self < 0 {
            -1
        } else {
            0
        }
    }
}

} // verus!
