use vstd::prelude::*;

verus! {

/// A three-valued sign: negative, zero or positive.
///
/// Both `+0` and `-0` count as zero here. For a sign that has only two
/// values, see [`BitSign`].
#[derive(Debug, Clone, Copy, PartialEq, Eq, Structural, PartialOrd, Ord, Hash)]
pub enum Sign {
    Negative,
    Zero,
    Positive,
}

/// A two-valued sign: negative or positive.
///
/// A bit-sign has no zero: `+0` counts as positive and `-0` as negative.
/// For a sign with a zero, see [`Sign`].
#[derive(Debug, Clone, Copy, PartialEq, Eq, Structural, PartialOrd, Ord, Hash)]
pub enum BitSign {
    Negative,
    Positive,
}

impl Sign {
    /// The sign as the integer `-1`, `0` or `1`.
    pub open spec fn to_int(self) -> int {
        match self {
            Sign::Negative => -1,
            Sign::Zero => 0,
            Sign::Positive => 1,
        }
    }

    /// The sign of a mathematical integer.
    pub open spec fn of(x: int) -> Sign {
        if x < 0 {
            Sign::Negative
        } else if x == 0 {
            Sign::Zero
        } else {
            Sign::Positive
        }
    }
}

/// The sign of a product is the product of the signs.
pub proof fn lemma_sign_of_product(a: int, b: int)
    ensures
        Sign::of(a * b).to_int() == Sign::of(a).to_int() * Sign::of(b).to_int(),
{
    if a > 0 && b > 0 {
        assert(a * b > 0) by (nonlinear_arith)
            requires
                a > 0,
                b > 0,
        ;
    } else if a > 0 && b < 0 {
        assert(a * b < 0) by (nonlinear_arith)
            requires
                a > 0,
                b < 0,
        ;
    } else if a < 0 && b > 0 {
        assert(a * b < 0) by (nonlinear_arith)
            requires
                a < 0,
                b > 0,
        ;
    } else if a < 0 && b < 0 {
        assert(a * b > 0) by (nonlinear_arith)
            requires
                a < 0,
                b < 0,
        ;
    }
}

/// Negating a number negates its sign.
pub proof fn lemma_sign_of_negation(a: int)
    ensures
        Sign::of(-a).to_int() == -Sign::of(a).to_int(),
{
}

impl BitSign {
    /// The bit-sign as the integer `-1` or `1`.
    pub open spec fn to_int(self) -> int {
        match self {
            BitSign::Negative => -1,
            BitSign::Positive => 1,
        }
    }

    /// The bit-sign of a mathematical integer, with zero counted as positive.
    pub open spec fn of(x: int) -> BitSign {
        if x < 0 {
            BitSign::Negative
        } else {
            BitSign::Positive
        }
    }
}

impl vstd::std_specs::ops::NegSpecImpl for Sign {
    open spec fn obeys_neg_spec() -> bool {
        true
    }

    open spec fn neg_req(self) -> bool {
        true
    }

    open spec fn neg_spec(self) -> Sign {
        Sign::of(-self.to_int())
    }
}

impl core::ops::Neg for Sign {
    type Output = Self;

    fn neg(self) -> (r: Self)
        ensures
            r.to_int() == -self.to_int(),
    {
        match self {
            Sign::Negative => Sign::Positive,
            Sign::Zero => Sign::Zero,
            Sign::Positive => Sign::Negative,
        }
    }
}

impl vstd::std_specs::ops::MulSpecImpl for Sign {
    open spec fn obeys_mul_spec() -> bool {
        true
    }

    open spec fn mul_req(self, rhs: Sign) -> bool {
        true
    }

    open spec fn mul_spec(self, rhs: Sign) -> Sign {
        Sign::of(self.to_int() * rhs.to_int())
    }
}

impl core::ops::Mul for Sign {
    type Output = Self;

    fn mul(self, rhs: Self) -> (r: Self)
        ensures
            r.to_int() == self.to_int() * rhs.to_int(),
    {
        match (self, rhs) {
            (Sign::Zero, _) => Sign::Zero,
            (_, Sign::Zero) => Sign::Zero,
            (Sign::Positive, rhs) => rhs,
            (lhs, Sign::Positive) => lhs,
            (Sign::Negative, Sign::Negative) => Sign::Positive,
        }
    }
}

impl vstd::std_specs::ops::NegSpecImpl for BitSign {
    open spec fn obeys_neg_spec() -> bool {
        true
    }

    open spec fn neg_req(self) -> bool {
        true
    }

    open spec fn neg_spec(self) -> BitSign {
        BitSign::of(-self.to_int())
    }
}

impl core::ops::Neg for BitSign {
    type Output = Self;

    fn neg(self) -> (r: Self)
        ensures
            r.to_int() == -self.to_int(),
    {
        match self {
            BitSign::Negative => BitSign::Positive,
            BitSign::Positive => BitSign::Negative,
        }
    }
}

impl vstd::std_specs::ops::MulSpecImpl for BitSign {
    open spec fn obeys_mul_spec() -> bool {
        true
    }

    open spec fn mul_req(self, rhs: BitSign) -> bool {
        true
    }

    open spec fn mul_spec(self, rhs: BitSign) -> BitSign {
        BitSign::of(self.to_int() * rhs.to_int())
    }
}

impl core::ops::Mul for BitSign {
    type Output = Self;

    fn mul(self, rhs: Self) -> (r: Self)
        ensures
            r.to_int() == self.to_int() * rhs.to_int(),
    {
        match (self, rhs) {
            (BitSign::Positive, rhs) => rhs,
            (lhs, BitSign::Positive) => lhs,
            (BitSign::Negative, BitSign::Negative) => BitSign::Positive,
        }
    }
}

} // verus!
