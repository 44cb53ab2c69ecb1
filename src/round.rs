use vstd::prelude::*;

use crate::signed::Zero;

verus! {

/// Rounding (`round`, `floor`, ...) for numbers, number containers or anything
/// where it makes sense.
///
/// The results are of type `Self`, so this is no rounding to an integer type:
/// for that, see [`crate::whole::WholeEquivalent`].
///
/// Types whose values are all whole (the integer types) implement it too: code
/// that is generic over a number may round it without knowing whether it is
/// whole already.
pub trait Round: Sized + Zero {
    /// What `round` returns.
    spec fn round_spec(self) -> Self;

    fn round(self) -> (r: Self)
        ensures
            r == self.round_spec(),
    ;

    /// What `floor` returns.
    spec fn floor_spec(self) -> Self;

    fn floor(self) -> (r: Self)
        ensures
            r == self.floor_spec(),
    ;

    /// What `ceil` returns.
    spec fn ceil_spec(self) -> Self;

    fn ceil(self) -> (r: Self)
        ensures
            r == self.ceil_spec(),
    ;

    /// What `trunc` returns.
    spec fn trunc_spec(self) -> Self;

    fn trunc(self) -> (r: Self)
        ensures
            r == self.trunc_spec(),
    ;

    /// What `atrunc` returns.
    spec fn atrunc_spec(self) -> Self;

    fn atrunc(self) -> (r: Self)
        ensures
            r == self.atrunc_spec(),
    ;

    /// What `fract` returns.
    spec fn fract_spec(self) -> Self;

    fn fract(self) -> (r: Self)
        ensures
            r == self.fract_spec(),
    ;
}

/// Every value is whole: rounding keeps it and its fractional part is zero.
impl Round for u8 {
    open spec fn round_spec(self) -> u8 {
        self
    }

    fn round(self) -> u8 {
        self
    }

    open spec fn floor_spec(self) -> u8 {
        self
    }

    fn floor(self) -> u8 {
        self
    }

    open spec fn ceil_spec(self) -> u8 {
        self
    }

    fn ceil(self) -> u8 {
        self
    }

    open spec fn trunc_spec(self) -> u8 {
        self
    }

    fn trunc(self) -> u8 {
        self
    }

    open spec fn atrunc_spec(self) -> u8 {
        self
    }

    fn atrunc(self) -> u8 {
        self
    }

    open spec fn fract_spec(self) -> u8 {
        0
    }

    fn fract(self) -> u8 {
        0
    }
}

/// Every value is whole: rounding keeps it and its fractional part is zero.
impl Round for u16 {
    open spec fn round_spec(self) -> u16 {
        self
    }

    fn round(self) -> u16 {
        self
    }

    open spec fn floor_spec(self) -> u16 {
        self
    }

    fn floor(self) -> u16 {
        self
    }

    open spec fn ceil_spec(self) -> u16 {
        self
    }

    fn ceil(self) -> u16 {
        self
    }

    open spec fn trunc_spec(self) -> u16 {
        self
    }

    fn trunc(self) -> u16 {
        self
    }

    open spec fn atrunc_spec(self) -> u16 {
        self
    }

    fn atrunc(self) -> u16 {
        self
    }

    open spec fn fract_spec(self) -> u16 {
        0
    }

    fn fract(self) -> u16 {
        0
    }
}

/// Every value is whole: rounding keeps it and its fractional part is zero.
impl Round for u32 {
    open spec fn round_spec(self) -> u32 {
        self
    }

    fn round(self) -> u32 {
        self
    }

    open spec fn floor_spec(self) -> u32 {
        self
    }

    fn floor(self) -> u32 {
        self
    }

    open spec fn ceil_spec(self) -> u32 {
        self
    }

    fn ceil(self) -> u32 {
        self
    }

    open spec fn trunc_spec(self) -> u32 {
        self
    }

    fn trunc(self) -> u32 {
        self
    }

    open spec fn atrunc_spec(self) -> u32 {
        self
    }

    fn atrunc(self) -> u32 {
        self
    }

    open spec fn fract_spec(self) -> u32 {
        0
    }

    fn fract(self) -> u32 {
        0
    }
}

/// Every value is whole: rounding keeps it and its fractional part is zero.
impl Round for u64 {
    open spec fn round_spec(self) -> u64 {
        self
    }

    fn round(self) -> u64 {
        self
    }

    open spec fn floor_spec(self) -> u64 {
        self
    }

    fn floor(self) -> u64 {
        self
    }

    open spec fn ceil_spec(self) -> u64 {
        self
    }

    fn ceil(self) -> u64 {
        self
    }

    open spec fn trunc_spec(self) -> u64 {
        self
    }

    fn trunc(self) -> u64 {
        self
    }

    open spec fn atrunc_spec(self) -> u64 {
        self
    }

    fn atrunc(self) -> u64 {
        self
    }

    open spec fn fract_spec(self) -> u64 {
        0
    }

    fn fract(self) -> u64 {
        0
    }
}

/// Every value is whole: rounding keeps it and its fractional part is zero.
impl Round for u128 {
    open spec fn round_spec(self) -> u128 {
        self
    }

    fn round(self) -> u128 {
        self
    }

    open spec fn floor_spec(self) -> u128 {
        self
    }

    fn floor(self) -> u128 {
        self
    }

    open spec fn ceil_spec(self) -> u128 {
        self
    }

    fn ceil(self) -> u128 {
        self
    }

    open spec fn trunc_spec(self) -> u128 {
        self
    }

    fn trunc(self) -> u128 {
        self
    }

    open spec fn atrunc_spec(self) -> u128 {
        self
    }

    fn atrunc(self) -> u128 {
        self
    }

    open spec fn fract_spec(self) -> u128 {
        0
    }

    fn fract(self) -> u128 {
        0
    }
}

/// Every value is whole: rounding keeps it and its fractional part is zero.
impl Round for usize {
    open spec fn round_spec(self) -> usize {
        self
    }

    fn round(self) -> usize {
        self
    }

    open spec fn floor_spec(self) -> usize {
        self
    }

    fn floor(self) -> usize {
        self
    }

    open spec fn ceil_spec(self) -> usize {
        self
    }

    fn ceil(self) -> usize {
        self
    }

    open spec fn trunc_spec(self) -> usize {
        self
    }

    fn trunc(self) -> usize {
        self
    }

    open spec fn atrunc_spec(self) -> usize {
        self
    }

    fn atrunc(self) -> usize {
        self
    }

    open spec fn fract_spec(self) -> usize {
        0
    }

    fn fract(self) -> usize {
        0
    }
}

/// Every value is whole: rounding keeps it and its fractional part is zero.
impl Round for i8 {
    open spec fn round_spec(self) -> i8 {
        self
    }

    fn round(self) -> i8 {
        self
    }

    open spec fn floor_spec(self) -> i8 {
        self
    }

    fn floor(self) -> i8 {
        self
    }

    open spec fn ceil_spec(self) -> i8 {
        self
    }

    fn ceil(self) -> i8 {
        self
    }

    open spec fn trunc_spec(self) -> i8 {
        self
    }

    fn trunc(self) -> i8 {
        self
    }

    open spec fn atrunc_spec(self) -> i8 {
        self
    }

    fn atrunc(self) -> i8 {
        self
    }

    open spec fn fract_spec(self) -> i8 {
        0
    }

    fn fract(self) -> i8 {
        0
    }
}

/// Every value is whole: rounding keeps it and its fractional part is zero.
impl Round for i16 {
    open spec fn round_spec(self) -> i16 {
        self
    }

    fn round(self) -> i16 {
        self
    }

    open spec fn floor_spec(self) -> i16 {
        self
    }

    fn floor(self) -> i16 {
        self
    }

    open spec fn ceil_spec(self) -> i16 {
        self
    }

    fn ceil(self) -> i16 {
        self
    }

    open spec fn trunc_spec(self) -> i16 {
        self
    }

    fn trunc(self) -> i16 {
        self
    }

    open spec fn atrunc_spec(self) -> i16 {
        self
    }

    fn atrunc(self) -> i16 {
        self
    }

    open spec fn fract_spec(self) -> i16 {
        0
    }

    fn fract(self) -> i16 {
        0
    }
}

/// Every value is whole: rounding keeps it and its fractional part is zero.
impl Round for i32 {
    open spec fn round_spec(self) -> i32 {
        self
    }

    fn round(self) -> i32 {
        self
    }

    open spec fn floor_spec(self) -> i32 {
        self
    }

    fn floor(self) -> i32 {
        self
    }

    open spec fn ceil_spec(self) -> i32 {
        self
    }

    fn ceil(self) -> i32 {
        self
    }

    open spec fn trunc_spec(self) -> i32 {
        self
    }

    fn trunc(self) -> i32 {
        self
    }

    open spec fn atrunc_spec(self) -> i32 {
        self
    }

    fn atrunc(self) -> i32 {
        self
    }

    open spec fn fract_spec(self) -> i32 {
        0
    }

    fn fract(self) -> i32 {
        0
    }
}

/// Every value is whole: rounding keeps it and its fractional part is zero.
impl Round for i64 {
    open spec fn round_spec(self) -> i64 {
        self
    }

    fn round(self) -> i64 {
        self
    }

    open spec fn floor_spec(self) -> i64 {
        self
    }

    fn floor(self) -> i64 {
        self
    }

    open spec fn ceil_spec(self) -> i64 {
        self
    }

    fn ceil(self) -> i64 {
        self
    }

    open spec fn trunc_spec(self) -> i64 {
        self
    }

    fn trunc(self) -> i64 {
        self
    }

    open spec fn atrunc_spec(self) -> i64 {
        self
    }

    fn atrunc(self) -> i64 {
        self
    }

    open spec fn fract_spec(self) -> i64 {
        0
    }

    fn fract(self) -> i64 {
        0
    }
}

/// Every value is whole: rounding keeps it and its fractional part is zero.
impl Round for i128 {
    open spec fn round_spec(self) -> i128 {
        self
    }

    fn round(self) -> i128 {
        self
    }

    open spec fn floor_spec(self) -> i128 {
        self
    }

    fn floor(self) -> i128 {
        self
    }

    open spec fn ceil_spec(self) -> i128 {
        self
    }

    fn ceil(self) -> i128 {
        self
    }

    open spec fn trunc_spec(self) -> i128 {
        self
    }

    fn trunc(self) -> i128 {
        self
    }

    open spec fn atrunc_spec(self) -> i128 {
        self
    }

    fn atrunc(self) -> i128 {
        self
    }

    open spec fn fract_spec(self) -> i128 {
        0
    }

    fn fract(self) -> i128 {
        0
    }
}

/// Every value is whole: rounding keeps it and its fractional part is zero.
impl Round for isize {
    open spec fn round_spec(self) -> isize {
        self
    }

    fn round(self) -> isize {
        self
    }

    open spec fn floor_spec(self) -> isize {
        self
    }

    fn floor(self) -> isize {
        self
    }

    open spec fn ceil_spec(self) -> isize {
        self
    }

    fn ceil(self) -> isize {
        self
    }

    open spec fn trunc_spec(self) -> isize {
        self
    }

    fn trunc(self) -> isize {
        self
    }

    open spec fn atrunc_spec(self) -> isize {
        self
    }

    fn atrunc(self) -> isize {
        self
    }

    open spec fn fract_spec(self) -> isize {
        0
    }

    fn fract(self) -> isize {
        0
    }
}

} // verus!
