//! Numeric capability traits: sign, rounding, roots, bounds, literals and
//! trigonometry, written once and implemented for the primitive integer types,
//! so that generic code can be written against what a number can do.
use vstd::prelude::*;

pub mod abs_diff;
pub mod floating;
pub mod literal;
pub mod min_max;
pub mod primitive;
pub mod root;
pub mod round;
pub mod sign;
pub mod signed;
pub mod trig;
pub mod type_min_max;
pub mod whole;

pub use abs_diff::AbsDiff;
pub use floating::{Floating, FloatingEquivalent};
pub use literal::{num, num_approx, FromIntLiteral};
pub use min_max::MinMax;
pub use primitive::{Float, Int, Prim, SInt, SignedPrim, UInt, UnsignedPrim};
pub use root::{Root, TruncRoot};
pub use round::Round;
pub use sign::{BitSign, Sign};
pub use signed::{
    FullySigned, Negative, NegativeOrZero, NotNegative, NotPositive, NotZero, OnlyNegative,
    OnlyPositive, OnlyZero, Positive, PositiveOrNegative, PositiveOrZero, Signed, Signum, Zero,
};
pub use trig::{AHyper, ATrig, Hyper, Trig};
pub use type_min_max::{Bounded, NoTypeMax, NoTypeMin, TypeMax, TypeMin, Unbounded};
pub use whole::{Whole, WholeEquivalent};

verus! {

/// Types that stand for numbers, with the arithmetic and comparison operators
/// and the capabilities of this crate: absolute difference, min/max, roots,
/// rounding and sign.
///
/// Types other than the primitives may implement it, such as numbers with a
/// unit (`Meters`, `Seconds`). Such a type need not hold common values like `0`
/// or `1`: one that holds only `100..=356` is a `Num` too, and [`num`] refuses
/// the literals it cannot hold.
pub trait Num:
    FromIntLiteral
    + AbsDiff<Output = Self>
    + MinMax
    + TruncRoot
    + Round
    + Signed<BoolMapped = bool>
    + PartialEq
    + PartialOrd
    + core::ops::Add<Output = Self>
    + core::ops::Sub<Output = Self>
    + core::ops::Mul<Output = Self>
    + core::ops::Div<Output = Self>
    + core::ops::Rem<Output = Self>
{
}

impl Num for u8 {
}

impl Num for u16 {
}

impl Num for u32 {
}

impl Num for u64 {
}

impl Num for u128 {
}

impl Num for usize {
}

impl Num for i8 {
}

impl Num for i16 {
}

impl Num for i32 {
}

impl Num for i64 {
}

impl Num for i128 {
}

impl Num for isize {
}

} // verus!
