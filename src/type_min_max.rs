use vstd::prelude::*;

verus! {

/// Types with a least value.
///
/// Not every number type has one: an integer kept on the heap can grow until
/// memory runs out.
pub trait TypeMin: Sized {
    spec fn type_min_spec() -> Self;

    fn type_min() -> (r: Self)
        ensures
            r == Self::type_min_spec(),
    ;
}

/// Types with a greatest value.
///
/// Not every number type has one: an integer kept on the heap can grow until
/// memory runs out.
pub trait TypeMax: Sized {
    spec fn type_max_spec() -> Self;

    fn type_max() -> (r: Self)
        ensures
            r == Self::type_max_spec(),
    ;
}

/// Types without a least value (the negation of [`TypeMin`]).
pub trait NoTypeMin: PartialOrd {
}

/// Types without a greatest value (the negation of [`TypeMax`]).
pub trait NoTypeMax: PartialOrd {
}

/// Types with both a least and a greatest value. Implemented for every
/// `TypeMin + TypeMax` type.
pub trait Bounded: TypeMin + TypeMax {
}

/// Types with neither a least nor a greatest value. Implemented for every
/// `NoTypeMin + NoTypeMax` type.
pub trait Unbounded: NoTypeMin + NoTypeMax {
}

impl<T: TypeMin + TypeMax> Bounded for T {
}

impl<T: NoTypeMin + NoTypeMax> Unbounded for T {
}

impl TypeMin for u8 {
    open spec fn type_min_spec() -> u8 {
        u8::MIN
    }

    fn type_min() -> u8 {
        u8::MIN
    }
}

impl TypeMax for u8 {
    open spec fn type_max_spec() -> u8 {
        u8::MAX
    }

    fn type_max() -> u8 {
        u8::MAX
    }
}

impl TypeMin for u16 {
    open spec fn type_min_spec() -> u16 {
        u16::MIN
    }

    fn type_min() -> u16 {
        u16::MIN
    }
}

impl TypeMax for u16 {
    open spec fn type_max_spec() -> u16 {
        u16::MAX
    }

    fn type_max() -> u16 {
        u16::MAX
    }
}

impl TypeMin for u32 {
    open spec fn type_min_spec() -> u32 {
        u32::MIN
    }

    fn type_min() -> u32 {
        u32::MIN
    }
}

impl TypeMax for u32 {
    open spec fn type_max_spec() -> u32 {
        u32::MAX
    }

    fn type_max() -> u32 {
        u32::MAX
    }
}

impl TypeMin for u64 {
    open spec fn type_min_spec() -> u64 {
        u64::MIN
    }

    fn type_min() -> u64 {
        u64::MIN
    }
}

impl TypeMax for u64 {
    open spec fn type_max_spec() -> u64 {
        u64::MAX
    }

    fn type_max() -> u64 {
        u64::MAX
    }
}

impl TypeMin for u128 {
    open spec fn type_min_spec() -> u128 {
        u128::MIN
    }

    fn type_min() -> u128 {
        u128::MIN
    }
}

impl TypeMax for u128 {
    open spec fn type_max_spec() -> u128 {
        u128::MAX
    }

    fn type_max() -> u128 {
        u128::MAX
    }
}

impl TypeMin for usize {
    open spec fn type_min_spec() -> usize {
        usize::MIN
    }

    fn type_min() -> usize {
        usize::MIN
    }
}

impl TypeMax for usize {
    open spec fn type_max_spec() -> usize {
        usize::MAX
    }

    fn type_max() -> usize {
        usize::MAX
    }
}

impl TypeMin for i8 {
    open spec fn type_min_spec() -> i8 {
        i8::MIN
    }

    fn type_min() -> i8 {
        i8::MIN
    }
}

impl TypeMax for i8 {
    open spec fn type_max_spec() -> i8 {
        i8::MAX
    }

    fn type_max() -> i8 {
        i8::MAX
    }
}

impl TypeMin for i16 {
    open spec fn type_min_spec() -> i16 {
        i16::MIN
    }

    fn type_min() -> i16 {
        i16::MIN
    }
}

impl TypeMax for i16 {
    open spec fn type_max_spec() -> i16 {
        i16::MAX
    }

    fn type_max() -> i16 {
        i16::MAX
    }
}

impl TypeMin for i32 {
    open spec fn type_min_spec() -> i32 {
        i32::MIN
    }

    fn type_min() -> i32 {
        i32::MIN
    }
}

impl TypeMax for i32 {
    open spec fn type_max_spec() -> i32 {
        i32::MAX
    }

    fn type_max() -> i32 {
        i32::MAX
    }
}

impl TypeMin for i64 {
    open spec fn type_min_spec() -> i64 {
        i64::MIN
    }

    fn type_min() -> i64 {
        i64::MIN
    }
}

impl TypeMax for i64 {
    open spec fn type_max_spec() -> i64 {
        i64::MAX
    }

    fn type_max() -> i64 {
        i64::MAX
    }
}

impl TypeMin for i128 {
    open spec fn type_min_spec() -> i128 {
        i128::MIN
    }

    fn type_min() -> i128 {
        i128::MIN
    }
}

impl TypeMax for i128 {
    open spec fn type_max_spec() -> i128 {
        i128::MAX
    }

    fn type_max() -> i128 {
        i128::MAX
    }
}

impl TypeMin for isize {
    open spec fn type_min_spec() -> isize {
        isize::MIN
    }

    fn type_min() -> isize {
        isize::MIN
    }
}

impl TypeMax for isize {
    open spec fn type_max_spec() -> isize {
        isize::MAX
    }

    fn type_max() -> isize {
        isize::MAX
    }
}

} // verus!
