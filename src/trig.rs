use vstd::prelude::*;

verus! {

/// Trigonometric functions. `self` is the angle and `Output` the ratio of the
/// right triangle.
///
/// * `sin(a) = opposite / hypotenuse`,
/// * `cos(a) = adjacent / hypotenuse`,
/// * `tan(a) = sin(a) / cos(a) = opposite / adjacent`,
/// * `cot(a) = 1 / tan(a) = adjacent / opposite`,
/// * `sec(a) = 1 / cos(a) = hypotenuse / adjacent`,
/// * `csc(a) = 1 / sin(a) = hypotenuse / opposite`.
///
/// Plain numbers take `self` in radians and have `Output = Self`. Other types
/// define their unit themselves, an `Angle` for one, whose `Output` may be a `Ratio`.
pub trait Trig {
    type Output;

    fn sin(self) -> Self::Output;

    fn cos(self) -> Self::Output;

    fn tan(self) -> Self::Output;

    fn cot(self) -> Self::Output;

    fn sec(self) -> Self::Output;

    fn csc(self) -> Self::Output;
}

/// Inverse trigonometric functions: `sin(asin(x)) = x`.
///
/// Plain numbers have `Output = Self`. Other types should keep
/// `<Self::Output as Trig>::Output = Self`, a `Ratio` giving an `Angle` for one.
pub trait ATrig {
    type Output;

    fn asin(self) -> Self::Output;

    fn acos(self) -> Self::Output;

    fn atan(self) -> Self::Output;

    fn acot(self) -> Self::Output;
}

/// Hyperbolic functions.
pub trait Hyper {
    type Output;

    fn sinh(self) -> Self::Output;

    fn cosh(self) -> Self::Output;

    fn tanh(self) -> Self::Output;

    fn coth(self) -> Self::Output;
}

/// Inverse hyperbolic functions.
pub trait AHyper {
    type Output;

    fn asinh(self) -> Self::Output;

    fn acosh(self) -> Self::Output;

    fn atanh(self) -> Self::Output;

    fn acoth(self) -> Self::Output;
}

} // verus!
