use vstd::prelude::*;

verus! {

/// Conversion of integer literals to `Self`, as done by [`num`] and [`num_approx`].
///
/// A type has exact bounds, within which each literal converts without loss,
/// and approximate ones. `f32`, for one, reaches `3.4028235e38` but stops
/// holding every integer after `16_777_216`.
pub trait FromIntLiteral: Sized {
    /// What `min_literal` returns.
    spec fn min_literal_spec() -> u128;

    /// The least literal that converts to `Self` without loss.
    fn min_literal() -> (r: u128)
        ensures
            r == Self::min_literal_spec(),
    ;

    /// What `max_literal` returns.
    spec fn max_literal_spec() -> u128;

    /// The greatest literal that converts to `Self` without loss.
    fn max_literal() -> (r: u128)
        ensures
            r == Self::max_literal_spec(),
    ;

    /// What `min_approx_literal` returns.
    spec fn min_approx_literal_spec() -> u128;

    /// The least literal that converts to `Self` approximately. For most types the same as `min_literal`.
    fn min_approx_literal() -> (r: u128)
        ensures
            r == Self::min_approx_literal_spec(),
    ;

    /// What `max_approx_literal` returns.
    spec fn max_approx_literal_spec() -> u128;

    /// The greatest literal that converts to `Self` approximately. For most types the same as `max_literal`.
    fn max_approx_literal() -> (r: u128)
        ensures
            r == Self::max_approx_literal_spec(),
    ;

    /// The value that `value` converts to.
    spec fn from_int_literal_spec(value: u128) -> Self;

    /// The value that `value` converts to approximately.
    spec fn approx_from_int_literal_spec(value: u128) -> Self;

    /// Converts a literal within `min_literal()..=max_literal()`.
    fn from_int_literal(value: u128) -> (r: Self)
        requires
            Self::min_literal_spec() <= value <= Self::max_literal_spec(),
        ensures
            r == Self::from_int_literal_spec(value),
    ;

    /// Converts a literal within `min_approx_literal()..=max_approx_literal()`.
    fn approx_from_int_literal(value: u128) -> (r: Self)
        requires
            Self::min_approx_literal_spec() <= value <= Self::max_approx_literal_spec(),
        ensures
            r == Self::approx_from_int_literal_spec(value),
    ;
}

/// The literal `value` as a `T`, or `None` where `T` cannot hold it exactly.
pub fn num<T: FromIntLiteral>(value: u128) -> (r: Option<T>)
    ensures
        r == if T::min_literal_spec() <= value <= T::max_literal_spec() {
            Some(T::from_int_literal_spec(value))
        } else {
            None
        },
{
    if value < T::min_literal() || value > T::max_literal() {
        None
    } else {
        Some(T::from_int_literal(value))
    }
}

/// The literal `value` as a `T`, or `None` where `T` cannot hold it even
/// approximately.
pub fn num_approx<T: FromIntLiteral>(value: u128) -> (r: Option<T>)
    ensures
        r == if T::min_approx_literal_spec() <= value <= T::max_approx_literal_spec() {
            Some(T::approx_from_int_literal_spec(value))
        } else {
            None
        },
{
    if value < T::min_approx_literal() || value > T::max_approx_literal() {
        None
    } else {
        Some(T::approx_from_int_literal(value))
    }
}

impl FromIntLiteral for u8 {
    open spec fn min_literal_spec() -> u128 {
        0
    }

    fn min_literal() -> u128 {
        0
    }

    open spec fn max_literal_spec() -> u128 {
        u8::MAX as u128
    }

    fn max_literal() -> u128 {
        u8::MAX as u128
    }

    open spec fn min_approx_literal_spec() -> u128 {
        0
    }

    fn min_approx_literal() -> u128 {
        0
    }

    open spec fn max_approx_literal_spec() -> u128 {
        u8::MAX as u128
    }

    fn max_approx_literal() -> u128 {
        u8::MAX as u128
    }

    open spec fn from_int_literal_spec(value: u128) -> u8 {
        value as u8
    }

    fn from_int_literal(value: u128) -> u8 {
        value as u8
    }

    open spec fn approx_from_int_literal_spec(value: u128) -> u8 {
        value as u8
    }

    fn approx_from_int_literal(value: u128) -> u8 {
        value as u8
    }
}

impl FromIntLiteral for u16 {
    open spec fn min_literal_spec() -> u128 {
        0
    }

    fn min_literal() -> u128 {
        0
    }

    open spec fn max_literal_spec() -> u128 {
        u16::MAX as u128
    }

    fn max_literal() -> u128 {
        u16::MAX as u128
    }

    open spec fn min_approx_literal_spec() -> u128 {
        0
    }

    fn min_approx_literal() -> u128 {
        0
    }

    open spec fn max_approx_literal_spec() -> u128 {
        u16::MAX as u128
    }

    fn max_approx_literal() -> u128 {
        u16::MAX as u128
    }

    open spec fn from_int_literal_spec(value: u128) -> u16 {
        value as u16
    }

    fn from_int_literal(value: u128) -> u16 {
        value as u16
    }

    open spec fn approx_from_int_literal_spec(value: u128) -> u16 {
        value as u16
    }

    fn approx_from_int_literal(value: u128) -> u16 {
        value as u16
    }
}

impl FromIntLiteral for u32 {
    open spec fn min_literal_spec() -> u128 {
        0
    }

    fn min_literal() -> u128 {
        0
    }

    open spec fn max_literal_spec() -> u128 {
        u32::MAX as u128
    }

    fn max_literal() -> u128 {
        u32::MAX as u128
    }

    open spec fn min_approx_literal_spec() -> u128 {
        0
    }

    fn min_approx_literal() -> u128 {
        0
    }

    open spec fn max_approx_literal_spec() -> u128 {
        u32::MAX as u128
    }

    fn max_approx_literal() -> u128 {
        u32::MAX as u128
    }

    open spec fn from_int_literal_spec(value: u128) -> u32 {
        value as u32
    }

    fn from_int_literal(value: u128) -> u32 {
        value as u32
    }

    open spec fn approx_from_int_literal_spec(value: u128) -> u32 {
        value as u32
    }

    fn approx_from_int_literal(value: u128) -> u32 {
        value as u32
    }
}

impl FromIntLiteral for u64 {
    open spec fn min_literal_spec() -> u128 {
        0
    }

    fn min_literal() -> u128 {
        0
    }

    open spec fn max_literal_spec() -> u128 {
        u64::MAX as u128
    }

    fn max_literal() -> u128 {
        u64::MAX as u128
    }

    open spec fn min_approx_literal_spec() -> u128 {
        0
    }

    fn min_approx_literal() -> u128 {
        0
    }

    open spec fn max_approx_literal_spec() -> u128 {
        u64::MAX as u128
    }

    fn max_approx_literal() -> u128 {
        u64::MAX as u128
    }

    open spec fn from_int_literal_spec(value: u128) -> u64 {
        value as u64
    }

    fn from_int_literal(value: u128) -> u64 {
        value as u64
    }

    open spec fn approx_from_int_literal_spec(value: u128) -> u64 {
        value as u64
    }

    fn approx_from_int_literal(value: u128) -> u64 {
        value as u64
    }
}

impl FromIntLiteral for u128 {
    open spec fn min_literal_spec() -> u128 {
        0
    }

    fn min_literal() -> u128 {
        0
    }

    open spec fn max_literal_spec() -> u128 {
        u128::MAX as u128
    }

    fn max_literal() -> u128 {
        u128::MAX as u128
    }

    open spec fn min_approx_literal_spec() -> u128 {
        0
    }

    fn min_approx_literal() -> u128 {
        0
    }

    open spec fn max_approx_literal_spec() -> u128 {
        u128::MAX as u128
    }

    fn max_approx_literal() -> u128 {
        u128::MAX as u128
    }

    open spec fn from_int_literal_spec(value: u128) -> u128 {
        value as u128
    }

    fn from_int_literal(value: u128) -> u128 {
        value as u128
    }

    open spec fn approx_from_int_literal_spec(value: u128) -> u128 {
        value as u128
    }

    fn approx_from_int_literal(value: u128) -> u128 {
        value as u128
    }
}

impl FromIntLiteral for usize {
    open spec fn min_literal_spec() -> u128 {
        0
    }

    fn min_literal() -> u128 {
        0
    }

    open spec fn max_literal_spec() -> u128 {
        usize::MAX as u128
    }

    fn max_literal() -> u128 {
        usize::MAX as u128
    }

    open spec fn min_approx_literal_spec() -> u128 {
        0
    }

    fn min_approx_literal() -> u128 {
        0
    }

    open spec fn max_approx_literal_spec() -> u128 {
        usize::MAX as u128
    }

    fn max_approx_literal() -> u128 {
        usize::MAX as u128
    }

    open spec fn from_int_literal_spec(value: u128) -> usize {
        value as usize
    }

    fn from_int_literal(value: u128) -> usize {
        value as usize
    }

    open spec fn approx_from_int_literal_spec(value: u128) -> usize {
        value as usize
    }

    fn approx_from_int_literal(value: u128) -> usize {
        value as usize
    }
}

impl FromIntLiteral for i8 {
    open spec fn min_literal_spec() -> u128 {
        0
    }

    fn min_literal() -> u128 {
        0
    }

    open spec fn max_literal_spec() -> u128 {
        i8::MAX as u128
    }

    fn max_literal() -> u128 {
        i8::MAX as u128
    }

    open spec fn min_approx_literal_spec() -> u128 {
        0
    }

    fn min_approx_literal() -> u128 {
        0
    }

    open spec fn max_approx_literal_spec() -> u128 {
        i8::MAX as u128
    }

    fn max_approx_literal() -> u128 {
        i8::MAX as u128
    }

    open spec fn from_int_literal_spec(value: u128) -> i8 {
        value as i8
    }

    fn from_int_literal(value: u128) -> i8 {
        value as i8
    }

    open spec fn approx_from_int_literal_spec(value: u128) -> i8 {
        value as i8
    }

    fn approx_from_int_literal(value: u128) -> i8 {
        value as i8
    }
}

impl FromIntLiteral for i16 {
    open spec fn min_literal_spec() -> u128 {
        0
    }

    fn min_literal() -> u128 {
        0
    }

    open spec fn max_literal_spec() -> u128 {
        i16::MAX as u128
    }

    fn max_literal() -> u128 {
        i16::MAX as u128
    }

    open spec fn min_approx_literal_spec() -> u128 {
        0
    }

    fn min_approx_literal() -> u128 {
        0
    }

    open spec fn max_approx_literal_spec() -> u128 {
        i16::MAX as u128
    }

    fn max_approx_literal() -> u128 {
        i16::MAX as u128
    }

    open spec fn from_int_literal_spec(value: u128) -> i16 {
        value as i16
    }

    fn from_int_literal(value: u128) -> i16 {
        value as i16
    }

    open spec fn approx_from_int_literal_spec(value: u128) -> i16 {
        value as i16
    }

    fn approx_from_int_literal(value: u128) -> i16 {
        value as i16
    }
}

impl FromIntLiteral for i32 {
    open spec fn min_literal_spec() -> u128 {
        0
    }

    fn min_literal() -> u128 {
        0
    }

    open spec fn max_literal_spec() -> u128 {
        i32::MAX as u128
    }

    fn max_literal() -> u128 {
        i32::MAX as u128
    }

    open spec fn min_approx_literal_spec() -> u128 {
        0
    }

    fn min_approx_literal() -> u128 {
        0
    }

    open spec fn max_approx_literal_spec() -> u128 {
        i32::MAX as u128
    }

    fn max_approx_literal() -> u128 {
        i32::MAX as u128
    }

    open spec fn from_int_literal_spec(value: u128) -> i32 {
        value as i32
    }

    fn from_int_literal(value: u128) -> i32 {
        value as i32
    }

    open spec fn approx_from_int_literal_spec(value: u128) -> i32 {
        value as i32
    }

    fn approx_from_int_literal(value: u128) -> i32 {
        value as i32
    }
}

impl FromIntLiteral for i64 {
    open spec fn min_literal_spec() -> u128 {
        0
    }

    fn min_literal() -> u128 {
        0
    }

    open spec fn max_literal_spec() -> u128 {
        i64::MAX as u128
    }

    fn max_literal() -> u128 {
        i64::MAX as u128
    }

    open spec fn min_approx_literal_spec() -> u128 {
        0
    }

    fn min_approx_literal() -> u128 {
        0
    }

    open spec fn max_approx_literal_spec() -> u128 {
        i64::MAX as u128
    }

    fn max_approx_literal() -> u128 {
        i64::MAX as u128
    }

    open spec fn from_int_literal_spec(value: u128) -> i64 {
        value as i64
    }

    fn from_int_literal(value: u128) -> i64 {
        value as i64
    }

    open spec fn approx_from_int_literal_spec(value: u128) -> i64 {
        value as i64
    }

    fn approx_from_int_literal(value: u128) -> i64 {
        value as i64
    }
}

impl FromIntLiteral for i128 {
    open spec fn min_literal_spec() -> u128 {
        0
    }

    fn min_literal() -> u128 {
        0
    }

    open spec fn max_literal_spec() -> u128 {
        i128::MAX as u128
    }

    fn max_literal() -> u128 {
        i128::MAX as u128
    }

    open spec fn min_approx_literal_spec() -> u128 {
        0
    }

    fn min_approx_literal() -> u128 {
        0
    }

    open spec fn max_approx_literal_spec() -> u128 {
        i128::MAX as u128
    }

    fn max_approx_literal() -> u128 {
        i128::MAX as u128
    }

    open spec fn from_int_literal_spec(value: u128) -> i128 {
        value as i128
    }

    fn from_int_literal(value: u128) -> i128 {
        value as i128
    }

    open spec fn approx_from_int_literal_spec(value: u128) -> i128 {
        value as i128
    }

    fn approx_from_int_literal(value: u128) -> i128 {
        value as i128
    }
}

impl FromIntLiteral for isize {
    open spec fn min_literal_spec() -> u128 {
        0
    }

    fn min_literal() -> u128 {
        0
    }

    open spec fn max_literal_spec() -> u128 {
        isize::MAX as u128
    }

    fn max_literal() -> u128 {
        isize::MAX as u128
    }

    open spec fn min_approx_literal_spec() -> u128 {
        0
    }

    fn min_approx_literal() -> u128 {
        0
    }

    open spec fn max_approx_literal_spec() -> u128 {
        isize::MAX as u128
    }

    fn max_approx_literal() -> u128 {
        isize::MAX as u128
    }

    open spec fn from_int_literal_spec(value: u128) -> isize {
        value as isize
    }

    fn from_int_literal(value: u128) -> isize {
        value as isize
    }

    open spec fn approx_from_int_literal_spec(value: u128) -> isize {
        value as isize
    }

    fn approx_from_int_literal(value: u128) -> isize {
        value as isize
    }
}

} // verus!
