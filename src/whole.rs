use vstd::prelude::*;

use crate::root::TruncRoot;
use crate::round::Round;
use crate::signed::Zero;

verus! {

/// Numbers or number containers whose values are always whole (`i32`, say):
/// rounding them changes nothing.
pub trait Whole: Round {
    /// Every way of rounding gives the value back, and the fractional part is zero.
    proof fn lemma_rounding_keeps(self)
        ensures
            self.round_spec() == self,
            self.floor_spec() == self,
            self.ceil_spec() == self,
            self.trunc_spec() == self,
            self.atrunc_spec() == self,
            self.fract_spec() == Self::zero_spec(),
    ;
}

/// On a whole value, rounding towards zero and rounding away from zero agree,
/// and `floor(x) == x == ceil(x)`.
pub proof fn lemma_whole_trunc_is_atrunc<T: Whole>(x: T)
    ensures
        x.trunc_spec() == x.atrunc_spec(),
        x.floor_spec() == x,
        x.ceil_spec() == x,
{
    x.lemma_rounding_keeps();
}

/// Numbers or number containers with a whole counterpart, to which they round.
///
/// `Whole` should be the lightest whole type that holds the whole range of `Self`.
pub trait WholeEquivalent: Round + TruncRoot {
    type Whole: Whole;

    /// What `iround` returns.
    spec fn iround_spec(self) -> Self::Whole;

    /// Rounds to the nearest whole number: `1.2 => 1`, `1.8 => 2`, `-1.3 => -1`.
    fn iround(self) -> (r: Self::Whole)
        ensures
            r == self.iround_spec(),
    ;

    /// What `ifloor` returns.
    spec fn ifloor_spec(self) -> Self::Whole;

    /// Rounds down: `1.2 => 1`, `1.8 => 1`, `-1.3 => -2`.
    fn ifloor(self) -> (r: Self::Whole)
        ensures
            r == self.ifloor_spec(),
    ;

    /// What `iceil` returns.
    spec fn iceil_spec(self) -> Self::Whole;

    /// Rounds up: `1.2 => 2`, `1.8 => 2`, `-1.3 => -1`.
    fn iceil(self) -> (r: Self::Whole)
        ensures
            r == self.iceil_spec(),
    ;

    /// What `itrunc` returns.
    spec fn itrunc_spec(self) -> Self::Whole;

    /// Rounds towards zero: `1.2 => 1`, `1.8 => 1`, `-1.3 => -1`.
    fn itrunc(self) -> (r: Self::Whole)
        ensures
            r == self.itrunc_spec(),
    ;

    /// What `iatrunc` returns.
    spec fn iatrunc_spec(self) -> Self::Whole;

    /// Rounds away from zero: `1.2 => 2`, `1.8 => 2`, `-1.3 => -2`.
    fn iatrunc(self) -> (r: Self::Whole)
        ensures
            r == self.iatrunc_spec(),
    ;

    /// The square root rounded towards zero, as a whole value.
    fn isqrt(self) -> (r: Self::Whole)
        requires
            self.has_sqrt(),
        ensures
            exists|s: Self| self.trunc_sqrt_ok(s) && r == s.iround_spec(),
    {
        let s = self.trunc_sqrt();
        s.iround()
    }

    /// The cube root rounded towards zero, as a whole value.
    fn icbrt(self) -> (r: Self::Whole)
        ensures
            exists|s: Self| self.trunc_cbrt_ok(s) && r == s.iround_spec(),
    {
        let s = self.trunc_cbrt();
        s.iround()
    }
}

impl Whole for u8 {
    proof fn lemma_rounding_keeps(self) {
    }
}

impl WholeEquivalent for u8 {
    type Whole = u8;

    open spec fn iround_spec(self) -> u8 {
        self
    }

    fn iround(self) -> u8 {
        self
    }

    open spec fn ifloor_spec(self) -> u8 {
        self
    }

    fn ifloor(self) -> u8 {
        self
    }

    open spec fn iceil_spec(self) -> u8 {
        self
    }

    fn iceil(self) -> u8 {
        self
    }

    open spec fn itrunc_spec(self) -> u8 {
        self
    }

    fn itrunc(self) -> u8 {
        self
    }

    open spec fn iatrunc_spec(self) -> u8 {
        self
    }

    fn iatrunc(self) -> u8 {
        self
    }
}

impl Whole for u16 {
    proof fn lemma_rounding_keeps(self) {
    }
}

impl WholeEquivalent for u16 {
    type Whole = u16;

    open spec fn iround_spec(self) -> u16 {
        self
    }

    fn iround(self) -> u16 {
        self
    }

    open spec fn ifloor_spec(self) -> u16 {
        self
    }

    fn ifloor(self) -> u16 {
        self
    }

    open spec fn iceil_spec(self) -> u16 {
        self
    }

    fn iceil(self) -> u16 {
        self
    }

    open spec fn itrunc_spec(self) -> u16 {
        self
    }

    fn itrunc(self) -> u16 {
        self
    }

    open spec fn iatrunc_spec(self) -> u16 {
        self
    }

    fn iatrunc(self) -> u16 {
        self
    }
}

impl Whole for u32 {
    proof fn lemma_rounding_keeps(self) {
    }
}

impl WholeEquivalent for u32 {
    type Whole = u32;

    open spec fn iround_spec(self) -> u32 {
        self
    }

    fn iround(self) -> u32 {
        self
    }

    open spec fn ifloor_spec(self) -> u32 {
        self
    }

    fn ifloor(self) -> u32 {
        self
    }

    open spec fn iceil_spec(self) -> u32 {
        self
    }

    fn iceil(self) -> u32 {
        self
    }

    open spec fn itrunc_spec(self) -> u32 {
        self
    }

    fn itrunc(self) -> u32 {
        self
    }

    open spec fn iatrunc_spec(self) -> u32 {
        self
    }

    fn iatrunc(self) -> u32 {
        self
    }
}

impl Whole for u64 {
    proof fn lemma_rounding_keeps(self) {
    }
}

impl WholeEquivalent for u64 {
    type Whole = u64;

    open spec fn iround_spec(self) -> u64 {
        self
    }

    fn iround(self) -> u64 {
        self
    }

    open spec fn ifloor_spec(self) -> u64 {
        self
    }

    fn ifloor(self) -> u64 {
        self
    }

    open spec fn iceil_spec(self) -> u64 {
        self
    }

    fn iceil(self) -> u64 {
        self
    }

    open spec fn itrunc_spec(self) -> u64 {
        self
    }

    fn itrunc(self) -> u64 {
        self
    }

    open spec fn iatrunc_spec(self) -> u64 {
        self
    }

    fn iatrunc(self) -> u64 {
        self
    }
}

impl Whole for u128 {
    proof fn lemma_rounding_keeps(self) {
    }
}

impl WholeEquivalent for u128 {
    type Whole = u128;

    open spec fn iround_spec(self) -> u128 {
        self
    }

    fn iround(self) -> u128 {
        self
    }

    open spec fn ifloor_spec(self) -> u128 {
        self
    }

    fn ifloor(self) -> u128 {
        self
    }

    open spec fn iceil_spec(self) -> u128 {
        self
    }

    fn iceil(self) -> u128 {
        self
    }

    open spec fn itrunc_spec(self) -> u128 {
        self
    }

    fn itrunc(self) -> u128 {
        self
    }

    open spec fn iatrunc_spec(self) -> u128 {
        self
    }

    fn iatrunc(self) -> u128 {
        self
    }
}

impl Whole for usize {
    proof fn lemma_rounding_keeps(self) {
    }
}

impl WholeEquivalent for usize {
    type Whole = usize;

    open spec fn iround_spec(self) -> usize {
        self
    }

    fn iround(self) -> usize {
        self
    }

    open spec fn ifloor_spec(self) -> usize {
        self
    }

    fn ifloor(self) -> usize {
        self
    }

    open spec fn iceil_spec(self) -> usize {
        self
    }

    fn iceil(self) -> usize {
        self
    }

    open spec fn itrunc_spec(self) -> usize {
        self
    }

    fn itrunc(self) -> usize {
        self
    }

    open spec fn iatrunc_spec(self) -> usize {
        self
    }

    fn iatrunc(self) -> usize {
        self
    }
}

impl Whole for i8 {
    proof fn lemma_rounding_keeps(self) {
    }
}

impl WholeEquivalent for i8 {
    type Whole = i8;

    open spec fn iround_spec(self) -> i8 {
        self
    }

    fn iround(self) -> i8 {
        self
    }

    open spec fn ifloor_spec(self) -> i8 {
        self
    }

    fn ifloor(self) -> i8 {
        self
    }

    open spec fn iceil_spec(self) -> i8 {
        self
    }

    fn iceil(self) -> i8 {
        self
    }

    open spec fn itrunc_spec(self) -> i8 {
        self
    }

    fn itrunc(self) -> i8 {
        self
    }

    open spec fn iatrunc_spec(self) -> i8 {
        self
    }

    fn iatrunc(self) -> i8 {
        self
    }
}

impl Whole for i16 {
    proof fn lemma_rounding_keeps(self) {
    }
}

impl WholeEquivalent for i16 {
    type Whole = i16;

    open spec fn iround_spec(self) -> i16 {
        self
    }

    fn iround(self) -> i16 {
        self
    }

    open spec fn ifloor_spec(self) -> i16 {
        self
    }

    fn ifloor(self) -> i16 {
        self
    }

    open spec fn iceil_spec(self) -> i16 {
        self
    }

    fn iceil(self) -> i16 {
        self
    }

    open spec fn itrunc_spec(self) -> i16 {
        self
    }

    fn itrunc(self) -> i16 {
        self
    }

    open spec fn iatrunc_spec(self) -> i16 {
        self
    }

    fn iatrunc(self) -> i16 {
        self
    }
}

impl Whole for i32 {
    proof fn lemma_rounding_keeps(self) {
    }
}

impl WholeEquivalent for i32 {
    type Whole = i32;

    open spec fn iround_spec(self) -> i32 {
        self
    }

    fn iround(self) -> i32 {
        self
    }

    open spec fn ifloor_spec(self) -> i32 {
        self
    }

    fn ifloor(self) -> i32 {
        self
    }

    open spec fn iceil_spec(self) -> i32 {
        self
    }

    fn iceil(self) -> i32 {
        self
    }

    open spec fn itrunc_spec(self) -> i32 {
        self
    }

    fn itrunc(self) -> i32 {
        self
    }

    open spec fn iatrunc_spec(self) -> i32 {
        self
    }

    fn iatrunc(self) -> i32 {
        self
    }
}

impl Whole for i64 {
    proof fn lemma_rounding_keeps(self) {
    }
}

impl WholeEquivalent for i64 {
    type Whole = i64;

    open spec fn iround_spec(self) -> i64 {
        self
    }

    fn iround(self) -> i64 {
        self
    }

    open spec fn ifloor_spec(self) -> i64 {
        self
    }

    fn ifloor(self) -> i64 {
        self
    }

    open spec fn iceil_spec(self) -> i64 {
        self
    }

    fn iceil(self) -> i64 {
        self
    }

    open spec fn itrunc_spec(self) -> i64 {
        self
    }

    fn itrunc(self) -> i64 {
        self
    }

    open spec fn iatrunc_spec(self) -> i64 {
        self
    }

    fn iatrunc(self) -> i64 {
        self
    }
}

impl Whole for i128 {
    proof fn lemma_rounding_keeps(self) {
    }
}

impl WholeEquivalent for i128 {
    type Whole = i128;

    open spec fn iround_spec(self) -> i128 {
        self
    }

    fn iround(self) -> i128 {
        self
    }

    open spec fn ifloor_spec(self) -> i128 {
        self
    }

    fn ifloor(self) -> i128 {
        self
    }

    open spec fn iceil_spec(self) -> i128 {
        self
    }

    fn iceil(self) -> i128 {
        self
    }

    open spec fn itrunc_spec(self) -> i128 {
        self
    }

    fn itrunc(self) -> i128 {
        self
    }

    open spec fn iatrunc_spec(self) -> i128 {
        self
    }

    fn iatrunc(self) -> i128 {
        self
    }
}

impl Whole for isize {
    proof fn lemma_rounding_keeps(self) {
    }
}

impl WholeEquivalent for isize {
    type Whole = isize;

    open spec fn iround_spec(self) -> isize {
        self
    }

    fn iround(self) -> isize {
        self
    }

    open spec fn ifloor_spec(self) -> isize {
        self
    }

    fn ifloor(self) -> isize {
        self
    }

    open spec fn iceil_spec(self) -> isize {
        self
    }

    fn iceil(self) -> isize {
        self
    }

    open spec fn itrunc_spec(self) -> isize {
        self
    }

    fn itrunc(self) -> isize {
        self
    }

    open spec fn iatrunc_spec(self) -> isize {
        self
    }

    fn iatrunc(self) -> isize {
        self
    }
}

} // verus!
