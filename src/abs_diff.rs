use vstd::prelude::*;

use crate::signed::abs_int;

verus! {

/// The absolute difference of two numbers, `|a - b|`: the same as
/// `(a - b).abs()`, not `a.abs() - b.abs()`.
pub trait AbsDiff: Sized {
    type Output;

    /// Whether `|self - rhs|` can be held by `Output`.
    spec fn has_abs_diff(self, rhs: Self) -> bool;

    /// `|self - rhs|`.
    spec fn abs_diff_spec(self, rhs: Self) -> Self::Output;

    fn abs_diff(self, rhs: Self) -> (r: Self::Output)
        requires
            self.has_abs_diff(rhs),
        ensures
            r == self.abs_diff_spec(rhs),
    ;
}

impl AbsDiff for u8 {
    type Output = u8;

    open spec fn has_abs_diff(self, rhs: u8) -> bool {
        true
    }

    open spec fn abs_diff_spec(self, rhs: u8) -> u8 {
        abs_int(self - rhs) as u8
    }

    fn abs_diff(self, rhs: u8) -> u8 {
        if self > rhs {
            self - rhs
        } else {
            rhs - self
        }
    }
}

impl AbsDiff for u16 {
    type Output = u16;

    open spec fn has_abs_diff(self, rhs: u16) -> bool {
        true
    }

    open spec fn abs_diff_spec(self, rhs: u16) -> u16 {
        abs_int(self - rhs) as u16
    }

    fn abs_diff(self, rhs: u16) -> u16 {
        if self > rhs {
            self - rhs
        } else {
            rhs - self
        }
    }
}

impl AbsDiff for u32 {
    type Output = u32;

    open spec fn has_abs_diff(self, rhs: u32) -> bool {
        true
    }

    open spec fn abs_diff_spec(self, rhs: u32) -> u32 {
        abs_int(self - rhs) as u32
    }

    fn abs_diff(self, rhs: u32) -> u32 {
        if self > rhs {
            self - rhs
        } else {
            rhs - self
        }
    }
}

impl AbsDiff for u64 {
    type Output = u64;

    open spec fn has_abs_diff(self, rhs: u64) -> bool {
        true
    }

    open spec fn abs_diff_spec(self, rhs: u64) -> u64 {
        abs_int(self - rhs) as u64
    }

    fn abs_diff(self, rhs: u64) -> u64 {
        if self > rhs {
            self - rhs
        } else {
            rhs - self
        }
    }
}

impl AbsDiff for u128 {
    type Output = u128;

    open spec fn has_abs_diff(self, rhs: u128) -> bool {
        true
    }

    open spec fn abs_diff_spec(self, rhs: u128) -> u128 {
        abs_int(self - rhs) as u128
    }

    fn abs_diff(self, rhs: u128) -> u128 {
        if self > rhs {
            self - rhs
        } else {
            rhs - self
        }
    }
}

impl AbsDiff for usize {
    type Output = usize;

    open spec fn has_abs_diff(self, rhs: usize) -> bool {
        true
    }

    open spec fn abs_diff_spec(self, rhs: usize) -> usize {
        abs_int(self - rhs) as usize
    }

    fn abs_diff(self, rhs: usize) -> usize {
        if self > rhs {
            self - rhs
        } else {
            rhs - self
        }
    }
}

impl AbsDiff for i8 {
    type Output = i8;

    open spec fn has_abs_diff(self, rhs: i8) -> bool {
        i8::MIN < self - rhs <= i8::MAX
    }

    open spec fn abs_diff_spec(self, rhs: i8) -> i8 {
        abs_int(self - rhs) as i8
    }

    fn abs_diff(self, rhs: i8) -> i8 {
        let d: i8 = self - rhs;
        if d < 0 {
            -d
        } else {
            d
        }
    }
}

impl AbsDiff for i16 {
    type Output = i16;

    open spec fn has_abs_diff(self, rhs: i16) -> bool {
        i16::MIN < self - rhs <= i16::MAX
    }

    open spec fn abs_diff_spec(self, rhs: i16) -> i16 {
        abs_int(self - rhs) as i16
    }

    fn abs_diff(self, rhs: i16) -> i16 {
        let d: i16 = self - rhs;
        if d < 0 {
            -d
        } else {
            d
        }
    }
}

impl AbsDiff for i32 {
    type Output = i32;

    open spec fn has_abs_diff(self, rhs: i32) -> bool {
        i32::MIN < self - rhs <= i32::MAX
    }

    open spec fn abs_diff_spec(self, rhs: i32) -> i32 {
        abs_int(self - rhs) as i32
    }

    fn abs_diff(self, rhs: i32) -> i32 {
        let d: i32 = self - rhs;
        if d < 0 {
            -d
        } else {
            d
        }
    }
}

impl AbsDiff for i64 {
    type Output = i64;

    open spec fn has_abs_diff(self, rhs: i64) -> bool {
        i64::MIN < self - rhs <= i64::MAX
    }

    open spec fn abs_diff_spec(self, rhs: i64) -> i64 {
        abs_int(self - rhs) as i64
    }

    fn abs_diff(self, rhs: i64) -> i64 {
        let d: i64 = self - rhs;
        if d < 0 {
            -d
        } else {
            d
        }
    }
}

impl AbsDiff for i128 {
    type Output = i128;

    open spec fn has_abs_diff(self, rhs: i128) -> bool {
        i128::MIN < self - rhs <= i128::MAX
    }

    open spec fn abs_diff_spec(self, rhs: i128) -> i128 {
        abs_int(self - rhs) as i128
    }

    fn abs_diff(self, rhs: i128) -> i128 {
        let d: i128 = self - rhs;
        if d < 0 {
            -d
        } else {
            d
        }
    }
}

impl AbsDiff for isize {
    type Output = isize;

    open spec fn has_abs_diff(self, rhs: isize) -> bool {
        isize::MIN < self - rhs <= isize::MAX
    }

    open spec fn abs_diff_spec(self, rhs: isize) -> isize {
        abs_int(self - rhs) as isize
    }

    fn abs_diff(self, rhs: isize) -> isize {
        let d: isize = self - rhs;
        if d < 0 {
            -d
        } else {
            d
        }
    }
}

} // verus!
