use vstd::prelude::*;

use crate::root::Root;
use crate::signed::{Negative, NotNegative, Positive, Signum, Zero};
use crate::trig::{AHyper, ATrig, Hyper, Trig};
use crate::type_min_max::TypeMin;
use crate::whole::{Whole, WholeEquivalent};
use crate::Num;

verus! {

/// The primitive number types (`u8`, `i32`, ...).
///
/// A type outside std may implement it where it keeps the primitive rules: it
/// holds `0..=127`, and it is `Copy`.
pub trait Prim: Num + Positive + Zero + Signum + WholeEquivalent + Copy {
}

/// The primitive integer types.
pub trait Int: Prim + Whole + Eq + Ord {
}

/// The primitive types with negative values.
pub trait SignedPrim: Prim + Negative + core::ops::Neg<Output = Self> {
}

/// The primitive types without negative values.
pub trait UnsignedPrim: Prim + NotNegative + TypeMin {
}

/// The signed primitive integer types.
pub trait SInt: Int + SignedPrim {
}

/// The unsigned primitive integer types.
pub trait UInt: Int + UnsignedPrim {
}

/// The primitive floating-point types.
pub trait Float:
    SignedPrim
    + Root
    + Trig<Output = Self>
    + ATrig<Output = Self>
    + Hyper<Output = Self>
    + AHyper<Output = Self>
{
}

impl Prim for u8 {
}

impl Int for u8 {
}

impl Prim for u16 {
}

impl Int for u16 {
}

impl Prim for u32 {
}

impl Int for u32 {
}

impl Prim for u64 {
}

impl Int for u64 {
}

impl Prim for u128 {
}

impl Int for u128 {
}

impl Prim for usize {
}

impl Int for usize {
}

impl Prim for i8 {
}

impl Int for i8 {
}

impl Prim for i16 {
}

impl Int for i16 {
}

impl Prim for i32 {
}

impl Int for i32 {
}

impl Prim for i64 {
}

impl Int for i64 {
}

impl Prim for i128 {
}

impl Int for i128 {
}

impl Prim for isize {
}

impl Int for isize {
}

impl UnsignedPrim for u8 {
}

impl UInt for u8 {
}

impl UnsignedPrim for u16 {
}

impl UInt for u16 {
}

impl UnsignedPrim for u32 {
}

impl UInt for u32 {
}

impl UnsignedPrim for u64 {
}

impl UInt for u64 {
}

impl UnsignedPrim for u128 {
}

impl UInt for u128 {
}

impl UnsignedPrim for usize {
}

impl UInt for usize {
}

impl SignedPrim for i8 {
}

impl SInt for i8 {
}

impl SignedPrim for i16 {
}

impl SInt for i16 {
}

impl SignedPrim for i32 {
}

impl SInt for i32 {
}

impl SignedPrim for i64 {
}

impl SInt for i64 {
}

impl SignedPrim for i128 {
}

impl SInt for i128 {
}

impl SignedPrim for isize {
}

impl SInt for isize {
}

} // verus!
