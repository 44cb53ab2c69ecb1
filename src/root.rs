use vstd::prelude::*;

verus! {

/// `x * x * x`.
pub open spec fn cube(x: int) -> int {
    x * x * x
}

/// `r` is the square root of `x` rounded down: the largest `r >= 0` with `r * r <= x`.
pub open spec fn is_floor_sqrt(x: int, r: int) -> bool {
    &&& 0 <= r
    &&& r * r <= x
    &&& x < (r + 1) * (r + 1)
}

/// `r` is the cube root of `x` rounded towards zero.
pub open spec fn is_trunc_cbrt(x: int, r: int) -> bool {
    if x >= 0 {
        &&& 0 <= r
        &&& cube(r) <= x
        &&& x < cube(r + 1)
    } else {
        &&& r <= 0
        &&& cube(r - 1) < x
        &&& x <= cube(r)
    }
}

/// Truncated square root and cube root.
///
/// For number containers (say a `Vec2`) the roots follow the logic of `Mul`:
/// if `Mul` works on each component apart, so do the roots.
pub trait TruncRoot: Sized {
    /// Whether `self` has a real square root, so that `trunc_sqrt` may be called on it.
    spec fn has_sqrt(self) -> bool;

    /// Whether `r` is the square root of `self` rounded towards zero.
    spec fn trunc_sqrt_ok(self, r: Self) -> bool;

    /// Whether `r` is the cube root of `self` rounded towards zero.
    spec fn trunc_cbrt_ok(self, r: Self) -> bool;

    /// The square root, rounded towards zero.
    fn trunc_sqrt(self) -> (r: Self)
        requires
            self.has_sqrt(),
        ensures
            self.trunc_sqrt_ok(r),
    ;

    /// The cube root, rounded towards zero.
    fn trunc_cbrt(self) -> (r: Self)
        ensures
            self.trunc_cbrt_ok(r),
    ;
}

/// Exact square root and cube root, for types that can hold them.
pub trait Root: TruncRoot {
    fn sqrt(self) -> Self
        requires
            self.has_sqrt(),
    ;

    fn cbrt(self) -> Self;
}

proof fn lemma_square_grows(a: int, b: int)
    requires
        0 <= a <= b,
    ensures
        a * a <= b * b,
{
    assert(a * a <= b * b) by (nonlinear_arith)
        requires
            0 <= a <= b,
    ;
}

proof fn lemma_cube_grows(a: int, b: int)
    requires
        a <= b,
    ensures
        cube(a) <= cube(b),
{
    assert(a * a * a <= b * b * b) by (nonlinear_arith)
        requires
            a <= b,
    ;
}

/// The rounded-down square root is unique.
pub proof fn lemma_floor_sqrt_unique(x: int, r: int, s: int)
    requires
        is_floor_sqrt(x, r),
        is_floor_sqrt(x, s),
    ensures
        r == s,
{
    if r < s {
        lemma_square_grows(r + 1, s);
    } else if s < r {
        lemma_square_grows(s + 1, r);
    }
}

/// The cube root rounded towards zero is unique.
pub proof fn lemma_trunc_cbrt_unique(x: int, r: int, s: int)
    requires
        is_trunc_cbrt(x, r),
        is_trunc_cbrt(x, s),
    ensures
        r == s,
{
    if r < s {
        if x >= 0 {
            lemma_cube_grows(r + 1, s);
        } else {
            lemma_cube_grows(r, s - 1);
        }
    } else if s < r {
        if x >= 0 {
            lemma_cube_grows(s + 1, r);
        } else {
            lemma_cube_grows(s, r - 1);
        }
    }
}

/// Rounding the cube root towards zero treats `x` and `-x` alike: their roots
/// are `r` and `-r`.
pub proof fn lemma_trunc_cbrt_odd(x: int, r: int)
    requires
        is_trunc_cbrt(x, r),
    ensures
        is_trunc_cbrt(-x, -r),
{
    assert(cube(-r) == -cube(r)) by (nonlinear_arith);
    assert(cube(-r - 1) == -cube(r + 1)) by (nonlinear_arith);
    assert(cube(-r + 1) == -cube(r - 1)) by (nonlinear_arith);
    if x == 0 && r > 0 {
        lemma_cube_grows(1, r);
    }
}

/// Square root of `x` rounded down, by binary search.
fn floor_sqrt(x: u128) -> (r: u128)
    ensures
        is_floor_sqrt(x as int, r as int),
        r <= x,
{
    if x < 2 {
        assert(x * x <= x < (x + 1) * (x + 1)) by (nonlinear_arith)
            requires
                x < 2,
        ;
        return x;
    }
    assert(x < x * x) by (nonlinear_arith)
        requires
            x >= 2,
    ;
    let mut lo: u128 = 1;
    let mut hi: u128 = x;
    while hi - lo > 1
        invariant
            1 <= lo < hi <= x,
            lo * lo <= x,
            x < hi * hi,
        decreases hi - lo,
    {
        let mid: u128 = lo + (hi - lo) / 2;
        match mid.checked_mul(mid) {
            Some(sq) => {
                if sq <= x {
                    lo = mid;
                } else {
                    hi = mid;
                }
            },
            None => {
                hi = mid;
            },
        }
    }
    lo
}

/// Cube root of `x` rounded down, by binary search.
fn floor_cbrt(x: u128) -> (r: u128)
    ensures
        is_trunc_cbrt(x as int, r as int),
        r <= x,
        x >= 2 ==> r < x,
{
    if x < 2 {
        assert(x * x * x <= x < (x + 1) * (x + 1) * (x + 1)) by (nonlinear_arith)
            requires
                x < 2,
        ;
        return x;
    }
    assert(x < x * x * x) by (nonlinear_arith)
        requires
            x >= 2,
    ;
    let mut lo: u128 = 1;
    let mut hi: u128 = x;
    while hi - lo > 1
        invariant
            1 <= lo < hi <= x,
            cube(lo as int) <= x,
            x < cube(hi as int),
        decreases hi - lo,
    {
        let mid: u128 = lo + (hi - lo) / 2;
        match mid.checked_mul(mid) {
            Some(sq) => {
                match sq.checked_mul(mid) {
                    Some(cb) => {
                        if cb <= x {
                            lo = mid;
                        } else {
                            hi = mid;
                        }
                    },
                    None => {
                        hi = mid;
                    },
                }
            },
            None => {
                assert(mid * mid <= mid * mid * mid) by (nonlinear_arith)
                    requires
                        mid >= 1,
                ;
                hi = mid;
            },
        }
    }
    lo
}

/// Cube root of `x` rounded towards zero, for any `i128`.
fn trunc_cbrt_i128(x: i128) -> (r: i128)
    ensures
        is_trunc_cbrt(x as int, r as int),
        x >= 0 ==> r <= x,
        x < 0 ==> x <= r,
        x >= 2 ==> r < x,
        x <= -2 ==> x < r,
{
    if x >= 0 {
        floor_cbrt(x as u128) as i128
    } else {
        let m: u128 = ((-(x + 1)) as u128) + 1;
        let c: u128 = floor_cbrt(m);
        let r: i128 = -(c as i128);
        proof {
            let ci = c as int;
            assert(cube(-ci) == -cube(ci)) by (nonlinear_arith);
            assert(cube(-ci - 1) == -cube(ci + 1)) by (nonlinear_arith);
        }
        r
    }
}

impl TruncRoot for u8 {
    open spec fn has_sqrt(self) -> bool {
        true
    }

    open spec fn trunc_sqrt_ok(self, r: u8) -> bool {
        is_floor_sqrt(self as int, r as int)
    }

    open spec fn trunc_cbrt_ok(self, r: u8) -> bool {
        is_trunc_cbrt(self as int, r as int)
    }

    fn trunc_sqrt(self) -> u8 {
        floor_sqrt(self as u128) as u8
    }

    fn trunc_cbrt(self) -> u8 {
        floor_cbrt(self as u128) as u8
    }
}

impl TruncRoot for u16 {
    open spec fn has_sqrt(self) -> bool {
        true
    }

    open spec fn trunc_sqrt_ok(self, r: u16) -> bool {
        is_floor_sqrt(self as int, r as int)
    }

    open spec fn trunc_cbrt_ok(self, r: u16) -> bool {
        is_trunc_cbrt(self as int, r as int)
    }

    fn trunc_sqrt(self) -> u16 {
        floor_sqrt(self as u128) as u16
    }

    fn trunc_cbrt(self) -> u16 {
        floor_cbrt(self as u128) as u16
    }
}

impl TruncRoot for u32 {
    open spec fn has_sqrt(self) -> bool {
        true
    }

    open spec fn trunc_sqrt_ok(self, r: u32) -> bool {
        is_floor_sqrt(self as int, r as int)
    }

    open spec fn trunc_cbrt_ok(self, r: u32) -> bool {
        is_trunc_cbrt(self as int, r as int)
    }

    fn trunc_sqrt(self) -> u32 {
        floor_sqrt(self as u128) as u32
    }

    fn trunc_cbrt(self) -> u32 {
        floor_cbrt(self as u128) as u32
    }
}

impl TruncRoot for u64 {
    open spec fn has_sqrt(self) -> bool {
        true
    }

    open spec fn trunc_sqrt_ok(self, r: u64) -> bool {
        is_floor_sqrt(self as int, r as int)
    }

    open spec fn trunc_cbrt_ok(self, r: u64) -> bool {
        is_trunc_cbrt(self as int, r as int)
    }

    fn trunc_sqrt(self) -> u64 {
        floor_sqrt(self as u128) as u64
    }

    fn trunc_cbrt(self) -> u64 {
        floor_cbrt(self as u128) as u64
    }
}

impl TruncRoot for u128 {
    open spec fn has_sqrt(self) -> bool {
        true
    }

    open spec fn trunc_sqrt_ok(self, r: u128) -> bool {
        is_floor_sqrt(self as int, r as int)
    }

    open spec fn trunc_cbrt_ok(self, r: u128) -> bool {
        is_trunc_cbrt(self as int, r as int)
    }

    fn trunc_sqrt(self) -> u128 {
        floor_sqrt(self as u128) as u128
    }

    fn trunc_cbrt(self) -> u128 {
        floor_cbrt(self as u128) as u128
    }
}

impl TruncRoot for usize {
    open spec fn has_sqrt(self) -> bool {
        true
    }

    open spec fn trunc_sqrt_ok(self, r: usize) -> bool {
        is_floor_sqrt(self as int, r as int)
    }

    open spec fn trunc_cbrt_ok(self, r: usize) -> bool {
        is_trunc_cbrt(self as int, r as int)
    }

    fn trunc_sqrt(self) -> usize {
        floor_sqrt(self as u128) as usize
    }

    fn trunc_cbrt(self) -> usize {
        floor_cbrt(self as u128) as usize
    }
}

impl TruncRoot for i8 {
    open spec fn has_sqrt(self) -> bool {
        self >= 0
    }

    open spec fn trunc_sqrt_ok(self, r: i8) -> bool {
        is_floor_sqrt(self as int, r as int)
    }

    open spec fn trunc_cbrt_ok(self, r: i8) -> bool {
        is_trunc_cbrt(self as int, r as int)
    }

    fn trunc_sqrt(self) -> i8 {
        floor_sqrt(self as u128) as i8
    }

    fn trunc_cbrt(self) -> i8 {
        trunc_cbrt_i128(self as i128) as i8
    }
}

impl TruncRoot for i16 {
    open spec fn has_sqrt(self) -> bool {
        self >= 0
    }

    open spec fn trunc_sqrt_ok(self, r: i16) -> bool {
        is_floor_sqrt(self as int, r as int)
    }

    open spec fn trunc_cbrt_ok(self, r: i16) -> bool {
        is_trunc_cbrt(self as int, r as int)
    }

    fn trunc_sqrt(self) -> i16 {
        floor_sqrt(self as u128) as i16
    }

    fn trunc_cbrt(self) -> i16 {
        trunc_cbrt_i128(self as i128) as i16
    }
}

impl TruncRoot for i32 {
    open spec fn has_sqrt(self) -> bool {
        self >= 0
    }

    open spec fn trunc_sqrt_ok(self, r: i32) -> bool {
        is_floor_sqrt(self as int, r as int)
    }

    open spec fn trunc_cbrt_ok(self, r: i32) -> bool {
        is_trunc_cbrt(self as int, r as int)
    }

    fn trunc_sqrt(self) -> i32 {
        floor_sqrt(self as u128) as i32
    }

    fn trunc_cbrt(self) -> i32 {
        trunc_cbrt_i128(self as i128) as i32
    }
}

impl TruncRoot for i64 {
    open spec fn has_sqrt(self) -> bool {
        self >= 0
    }

    open spec fn trunc_sqrt_ok(self, r: i64) -> bool {
        is_floor_sqrt(self as int, r as int)
    }

    open spec fn trunc_cbrt_ok(self, r: i64) -> bool {
        is_trunc_cbrt(self as int, r as int)
    }

    fn trunc_sqrt(self) -> i64 {
        floor_sqrt(self as u128) as i64
    }

    fn trunc_cbrt(self) -> i64 {
        trunc_cbrt_i128(self as i128) as i64
    }
}

impl TruncRoot for i128 {
    open spec fn has_sqrt(self) -> bool {
        self >= 0
    }

    open spec fn trunc_sqrt_ok(self, r: i128) -> bool {
        is_floor_sqrt(self as int, r as int)
    }

    open spec fn trunc_cbrt_ok(self, r: i128) -> bool {
        is_trunc_cbrt(self as int, r as int)
    }

    fn trunc_sqrt(self) -> i128 {
        floor_sqrt(self as u128) as i128
    }

    fn trunc_cbrt(self) -> i128 {
        trunc_cbrt_i128(self as i128) as i128
    }
}

impl TruncRoot for isize {
    open spec fn has_sqrt(self) -> bool {
        self >= 0
    }

    open spec fn trunc_sqrt_ok(self, r: isize) -> bool {
        is_floor_sqrt(self as int, r as int)
    }

    open spec fn trunc_cbrt_ok(self, r: isize) -> bool {
        is_trunc_cbrt(self as int, r as int)
    }

    fn trunc_sqrt(self) -> isize {
        floor_sqrt(self as u128) as isize
    }

    fn trunc_cbrt(self) -> isize {
        trunc_cbrt_i128(self as i128) as isize
    }
}

} // verus!
