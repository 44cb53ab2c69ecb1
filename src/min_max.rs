use vstd::prelude::*;

verus! {

/// `min`, `max` and `clamp`.
///
/// Types that are not `PartialOrd`, such as number containers, can implement
/// it by taking the minimum or maximum of each element.
pub trait MinMax: Sized {
    /// The lesser of `self` and `other`.
    spec fn min_of(self, other: Self) -> Self;

    /// The greater of `self` and `other`.
    spec fn max_of(self, other: Self) -> Self;

    /// `self` held within `min..=max`.
    spec fn clamp_of(self, min: Self, max: Self) -> Self;

    fn min(self, other: Self) -> (r: Self)
        ensures
            r == self.min_of(other),
    ;

    fn max(self, other: Self) -> (r: Self)
        ensures
            r == self.max_of(other),
    ;

    fn clamp(self, min: Self, max: Self) -> (r: Self)
        ensures
            r == self.clamp_of(min, max),
    ;
}

impl MinMax for u8 {
    open spec fn min_of(self, other: u8) -> u8 {
        if self < other {
            self
        } else {
            other
        }
    }

    open spec fn max_of(self, other: u8) -> u8 {
        if self > other {
            self
        } else {
            other
        }
    }

    /// Below `min` gives `min`, above `max` gives `max`; `min` is looked at first.
    open spec fn clamp_of(self, min: u8, max: u8) -> u8 {
        if self < min {
            min
        } else if self > max {
            max
        } else {
            self
        }
    }

    fn min(self, other: u8) -> u8 {
        if self < other {
            self
        } else {
            other
        }
    }

    fn max(self, other: u8) -> u8 {
        if self > other {
            self
        } else {
            other
        }
    }

    fn clamp(self, min: u8, max: u8) -> u8 {
        if self < min {
            min
        } else if self > max {
            max
        } else {
            self
        }
    }
}

impl MinMax for u16 {
    open spec fn min_of(self, other: u16) -> u16 {
        if self < other {
            self
        } else {
            other
        }
    }

    open spec fn max_of(self, other: u16) -> u16 {
        if self > other {
            self
        } else {
            other
        }
    }

    /// Below `min` gives `min`, above `max` gives `max`; `min` is looked at first.
    open spec fn clamp_of(self, min: u16, max: u16) -> u16 {
        if self < min {
            min
        } else if self > max {
            max
        } else {
            self
        }
    }

    fn min(self, other: u16) -> u16 {
        if self < other {
            self
        } else {
            other
        }
    }

    fn max(self, other: u16) -> u16 {
        if self > other {
            self
        } else {
            other
        }
    }

    fn clamp(self, min: u16, max: u16) -> u16 {
        if self < min {
            min
        } else if self > max {
            max
        } else {
            self
        }
    }
}

impl MinMax for u32 {
    open spec fn min_of(self, other: u32) -> u32 {
        if self < other {
            self
        } else {
            other
        }
    }

    open spec fn max_of(self, other: u32) -> u32 {
        if self > other {
            self
        } else {
            other
        }
    }

    /// Below `min` gives `min`, above `max` gives `max`; `min` is looked at first.
    open spec fn clamp_of(self, min: u32, max: u32) -> u32 {
        if self < min {
            min
        } else if self > max {
            max
        } else {
            self
        }
    }

    fn min(self, other: u32) -> u32 {
        if self < other {
            self
        } else {
            other
        }
    }

    fn max(self, other: u32) -> u32 {
        if self > other {
            self
        } else {
            other
        }
    }

    fn clamp(self, min: u32, max: u32) -> u32 {
        if self < min {
            min
        } else if self > max {
            max
        } else {
            self
        }
    }
}

impl MinMax for u64 {
    open spec fn min_of(self, other: u64) -> u64 {
        if self < other {
            self
        } else {
            other
        }
    }

    open spec fn max_of(self, other: u64) -> u64 {
        if self > other {
            self
        } else {
            other
        }
    }

    /// Below `min` gives `min`, above `max` gives `max`; `min` is looked at first.
    open spec fn clamp_of(self, min: u64, max: u64) -> u64 {
        if self < min {
            min
        } else if self > max {
            max
        } else {
            self
        }
    }

    fn min(self, other: u64) -> u64 {
        if self < other {
            self
        } else {
            other
        }
    }

    fn max(self, other: u64) -> u64 {
        if self > other {
            self
        } else {
            other
        }
    }

    fn clamp(self, min: u64, max: u64) -> u64 {
        if self < min {
            min
        } else if self > max {
            max
        } else {
            self
        }
    }
}

impl MinMax for u128 {
    open spec fn min_of(self, other: u128) -> u128 {
        if self < other {
            self
        } else {
            other
        }
    }

    open spec fn max_of(self, other: u128) -> u128 {
        if self > other {
            self
        } else {
            other
        }
    }

    /// Below `min` gives `min`, above `max` gives `max`; `min` is looked at first.
    open spec fn clamp_of(self, min: u128, max: u128) -> u128 {
        if self < min {
            min
        } else if self > max {
            max
        } else {
            self
        }
    }

    fn min(self, other: u128) -> u128 {
        if self < other {
            self
        } else {
            other
        }
    }

    fn max(self, other: u128) -> u128 {
        if self > other {
            self
        } else {
            other
        }
    }

    fn clamp(self, min: u128, max: u128) -> u128 {
        if self < min {
            min
        } else if self > max {
            max
        } else {
            self
        }
    }
}

impl MinMax for usize {
    open spec fn min_of(self, other: usize) -> usize {
        if self < other {
            self
        } else {
            other
        }
    }

    open spec fn max_of(self, other: usize) -> usize {
        if self > other {
            self
        } else {
            other
        }
    }

    /// Below `min` gives `min`, above `max` gives `max`; `min` is looked at first.
    open spec fn clamp_of(self, min: usize, max: usize) -> usize {
        if self < min {
            min
        } else if self > max {
            max
        } else {
            self
        }
    }

    fn min(self, other: usize) -> usize {
        if self < other {
            self
        } else {
            other
        }
    }

    fn max(self, other: usize) -> usize {
        if self > other {
            self
        } else {
            other
        }
    }

    fn clamp(self, min: usize, max: usize) -> usize {
        if self < min {
            min
        } else if self > max {
            max
        } else {
            self
        }
    }
}

impl MinMax for i8 {
    open spec fn min_of(self, other: i8) -> i8 {
        if self < other {
            self
        } else {
            other
        }
    }

    open spec fn max_of(self, other: i8) -> i8 {
        if self > other {
            self
        } else {
            other
        }
    }

    /// Below `min` gives `min`, above `max` gives `max`; `min` is looked at first.
    open spec fn clamp_of(self, min: i8, max: i8) -> i8 {
        if self < min {
            min
        } else if self > max {
            max
        } else {
            self
        }
    }

    fn min(self, other: i8) -> i8 {
        if self < other {
            self
        } else {
            other
        }
    }

    fn max(self, other: i8) -> i8 {
        if self > other {
            self
        } else {
            other
        }
    }

    fn clamp(self, min: i8, max: i8) -> i8 {
        if self < min {
            min
        } else if self > max {
            max
        } else {
            self
        }
    }
}

impl MinMax for i16 {
    open spec fn min_of(self, other: i16) -> i16 {
        if self < other {
            self
        } else {
            other
        }
    }

    open spec fn max_of(self, other: i16) -> i16 {
        if self > other {
            self
        } else {
            other
        }
    }

    /// Below `min` gives `min`, above `max` gives `max`; `min` is looked at first.
    open spec fn clamp_of(self, min: i16, max: i16) -> i16 {
        if self < min {
            min
        } else if self > max {
            max
        } else {
            self
        }
    }

    fn min(self, other: i16) -> i16 {
        if self < other {
            self
        } else {
            other
        }
    }

    fn max(self, other: i16) -> i16 {
        if self > other {
            self
        } else {
            other
        }
    }

    fn clamp(self, min: i16, max: i16) -> i16 {
        if self < min {
            min
        } else if self > max {
            max
        } else {
            self
        }
    }
}

impl MinMax for i32 {
    open spec fn min_of(self, other: i32) -> i32 {
        if self < other {
            self
        } else {
            other
        }
    }

    open spec fn max_of(self, other: i32) -> i32 {
        if self > other {
            self
        } else {
            other
        }
    }

    /// Below `min` gives `min`, above `max` gives `max`; `min` is looked at first.
    open spec fn clamp_of(self, min: i32, max: i32) -> i32 {
        if self < min {
            min
        } else if self > max {
            max
        } else {
            self
        }
    }

    fn min(self, other: i32) -> i32 {
        if self < other {
            self
        } else {
            other
        }
    }

    fn max(self, other: i32) -> i32 {
        if self > other {
            self
        } else {
            other
        }
    }

    fn clamp(self, min: i32, max: i32) -> i32 {
        if self < min {
            min
        } else if self > max {
            max
        } else {
            self
        }
    }
}

impl MinMax for i64 {
    open spec fn min_of(self, other: i64) -> i64 {
        if self < other {
            self
        } else {
            other
        }
    }

    open spec fn max_of(self, other: i64) -> i64 {
        if self > other {
            self
        } else {
            other
        }
    }

    /// Below `min` gives `min`, above `max` gives `max`; `min` is looked at first.
    open spec fn clamp_of(self, min: i64, max: i64) -> i64 {
        if self < min {
            min
        } else if self > max {
            max
        } else {
            self
        }
    }

    fn min(self, other: i64) -> i64 {
        if self < other {
            self
        } else {
            other
        }
    }

    fn max(self, other: i64) -> i64 {
        if self > other {
            self
        } else {
            other
        }
    }

    fn clamp(self, min: i64, max: i64) -> i64 {
        if self < min {
            min
        } else if self > max {
            max
        } else {
            self
        }
    }
}

impl MinMax for i128 {
    open spec fn min_of(self, other: i128) -> i128 {
        if self < other {
            self
        } else {
            other
        }
    }

    open spec fn max_of(self, other: i128) -> i128 {
        if self > other {
            self
        } else {
            other
        }
    }

    /// Below `min` gives `min`, above `max` gives `max`; `min` is looked at first.
    open spec fn clamp_of(self, min: i128, max: i128) -> i128 {
        if self < min {
            min
        } else if self > max {
            max
        } else {
            self
        }
    }

    fn min(self, other: i128) -> i128 {
        if self < other {
            self
        } else {
            other
        }
    }

    fn max(self, other: i128) -> i128 {
        if self > other {
            self
        } else {
            other
        }
    }

    fn clamp(self, min: i128, max: i128) -> i128 {
        if self < min {
            min
        } else if self > max {
            max
        } else {
            self
        }
    }
}

impl MinMax for isize {
    open spec fn min_of(self, other: isize) -> isize {
        if self < other {
            self
        } else {
            other
        }
    }

    open spec fn max_of(self, other: isize) -> isize {
        if self > other {
            self
        } else {
            other
        }
    }

    /// Below `min` gives `min`, above `max` gives `max`; `min` is looked at first.
    open spec fn clamp_of(self, min: isize, max: isize) -> isize {
        if self < min {
            min
        } else if self > max {
            max
        } else {
            self
        }
    }

    fn min(self, other: isize) -> isize {
        if self < other {
            self
        } else {
            other
        }
    }

    fn max(self, other: isize) -> isize {
        if self > other {
            self
        } else {
            other
        }
    }

    fn clamp(self, min: isize, max: isize) -> isize {
        if self < min {
            min
        } else if self > max {
            max
        } else {
            self
        }
    }
}

} // verus!
