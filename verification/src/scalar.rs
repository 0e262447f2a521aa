//! Fixed-point numbers with 16 fractional bits in a 64-bit word.
//!
//! Every operation is total: a result that would leave the representable range
//! saturates at the nearest bound, and division truncates toward zero.

use vstd::prelude::*;

verus! {

/// Number of raw units in one: a value `x` is stored as `x * 65536`.
pub const SCALE: i64 = 65536;

/// Largest raw value.
pub const RAW_MAX: i64 = 0x7fff_ffff_ffff_ffff;

/// Smallest raw value.
pub const RAW_MIN: i64 = -0x8000_0000_0000_0000;

/// The integer nearest to `x` that a raw word can hold.
pub open spec fn saturate(x: int) -> i64 {
    if x > RAW_MAX {
        RAW_MAX
    } else if x < RAW_MIN {
        RAW_MIN
    } else {
        x as i64
    }
}

/// The quotient of `x` by `d`, rounded toward zero; zero when `d` is zero.
pub open spec fn trunc_div(x: int, d: int) -> int {
    if d == 0 {
        0
    } else if x >= 0 && d > 0 {
        x / d
    } else if x >= 0 {
        -(x / (-d))
    } else if d > 0 {
        -((-x) / d)
    } else {
        (-x) / (-d)
    }
}

/// The largest `r >= 0` with `r * r <= n`, for `n >= 0`.
pub open spec fn is_floor_sqrt(n: int, r: int) -> bool {
    0 <= r && r * r <= n && n < (r + 1) * (r + 1)
}

/// A fixed-point number: the rational `raw / 65536`.
#[derive(Clone, Copy, Debug, PartialEq, Eq, Structural)]
pub struct Scalar {
    pub raw: i64,
}

impl View for Scalar {
    type V = int;

    open spec fn view(&self) -> int {
        self.raw as int
    }
}

/// Clamps a wide intermediate into a raw word.
fn saturate_wide(x: i128) -> (r: i64)
    ensures
        r == saturate(x as int),
{
    if x > RAW_MAX as i128 {
        RAW_MAX
    } else if x < RAW_MIN as i128 {
        RAW_MIN
    } else {
        x as i64
    }
}

/// The absolute value of a raw word, which always fits the wider type.
fn magnitude(x: i64) -> (m: u128)
    ensures
        m == if x < 0 { -(x as int) } else { x as int },
        m <= 0x8000_0000_0000_0000,
{
    if x < 0 {
        (-(x as i128)) as u128
    } else {
        x as u128
    }
}

/// At most one number is the floor of the square root of `n`.
pub proof fn lemma_floor_sqrt_unique(n: int, r1: int, r2: int)
    requires
        is_floor_sqrt(n, r1),
        is_floor_sqrt(n, r2),
    ensures
        r1 == r2,
{
    if r1 < r2 {
        assert((r1 + 1) * (r1 + 1) <= r2 * r2) by (nonlinear_arith)
            requires
                0 <= r1,
                r1 + 1 <= r2,
        ;
    } else if r2 < r1 {
        assert((r2 + 1) * (r2 + 1) <= r1 * r1) by (nonlinear_arith)
            requires
                0 <= r2,
                r2 + 1 <= r1,
        ;
    }
}

/// Every number that is not negative has a floor of its square root.
pub proof fn lemma_floor_sqrt_exists(n: nat) -> (r: int)
    ensures
        is_floor_sqrt(n as int, r),
    decreases n,
{
    if n == 0 {
        assert(is_floor_sqrt(0, 0)) by (nonlinear_arith);
        0
    } else {
        let p = lemma_floor_sqrt_exists((n - 1) as nat);
        if (p + 1) * (p + 1) <= n {
            let r = p + 1;
            assert(r * r <= n && n < (r + 1) * (r + 1)) by (nonlinear_arith)
                requires
                    r == p + 1,
                    (p + 1) * (p + 1) <= n,
                    n - 1 < (p + 1) * (p + 1),
                    0 <= p,
            ;
            r
        } else {
            assert(p * p <= n) by (nonlinear_arith)
                requires
                    p * p <= n - 1,
            ;
            p
        }
    }
}

/// The square root of a positive number is the floor of the exact root, and
/// no square root is negative.
pub proof fn lemma_sqrt_is_floor(a: Scalar)
    ensures
        a.sqrt()@ >= 0,
        a@ > 0 ==> is_floor_sqrt(a@ * 65536, a.sqrt()@),
{
    if a@ > 0 {
        let n = a@ * 65536;
        lemma_floor_sqrt_exists(n as nat);
        let r = choose|r: int| #[trigger] is_floor_sqrt(n, r);
        assert(r < 0x100_0000_0000) by (nonlinear_arith)
            requires
                0 <= r,
                r * r <= n,
                n < 0x1_0000_0000_0000_0000_0000,
        ;
    }
}

/// The floor of the square root of `n`, by bisection.
fn floor_sqrt(n: u128) -> (r: u128)
    requires
        n < 0x1_0000_0000_0000_0000_0000,
    ensures
        is_floor_sqrt(n as int, r as int),
        r < 0x100_0000_0000,
{
    let mut lo: u128 = 0;
    let mut hi: u128 = 0x100_0000_0000;
    assert(0x100_0000_0000 * 0x100_0000_0000 == 0x1_0000_0000_0000_0000_0000int) by (nonlinear_arith);
    while hi - lo > 1
        invariant
            lo < hi <= 0x100_0000_0000,
            lo * lo <= n,
            n < hi * hi,
        decreases hi - lo,
    {
        let mid: u128 = lo + (hi - lo) / 2;
        assert(mid * mid < 0x1_0000_0000_0000_0000_0000) by (nonlinear_arith)
            requires
                mid < 0x100_0000_0000,
        ;
        if mid * mid <= n {
            lo = mid;
        } else {
            hi = mid;
        }
    }
    lo
}

/// The remainder of a negative number, from the remainder of its opposite.
proof fn lemma_modulo_of_negative(x: int, p: int)
    requires
        p > 0,
    ensures
        0 <= x % p < p,
        x < 0 ==> x % p == if (-x) % p == 0 { 0 } else { p - (-x) % p },
{
    vstd::arithmetic::div_mod::lemma_mod_bound(x, p);
    if x < 0 {
        let q = (-x) / p;
        let r = (-x) % p;
        vstd::arithmetic::div_mod::lemma_fundamental_div_mod(-x, p);
        vstd::arithmetic::div_mod::lemma_mod_bound(-x, p);
        if r == 0 {
            assert(x == p * (-q)) by (nonlinear_arith)
                requires
                    -x == p * q + r,
                    r == 0,
            ;
            vstd::arithmetic::div_mod::lemma_fundamental_div_mod_converse(x, p, -q, 0);
        } else {
            assert(x == p * (-q - 1) + (p - r)) by (nonlinear_arith)
                requires
                    -x == p * q + r,
            ;
            vstd::arithmetic::div_mod::lemma_fundamental_div_mod_converse(x, p, -q - 1, p - r);
        }
    }
}

/// The product of two raw words fits a 128-bit intermediate.
proof fn lemma_product_fits(a: int, b: int)
    requires
        -0x8000_0000_0000_0000 <= a <= 0x7fff_ffff_ffff_ffff,
        -0x8000_0000_0000_0000 <= b <= 0x7fff_ffff_ffff_ffff,
    ensures
        -0x4000_0000_0000_0000_0000_0000_0000_0000 <= a * b
            <= 0x4000_0000_0000_0000_0000_0000_0000_0000,
{
    assert(-0x4000_0000_0000_0000_0000_0000_0000_0000 <= a * b
        <= 0x4000_0000_0000_0000_0000_0000_0000_0000) by (nonlinear_arith)
        requires
            -0x8000_0000_0000_0000 <= a <= 0x7fff_ffff_ffff_ffff,
            -0x8000_0000_0000_0000 <= b <= 0x7fff_ffff_ffff_ffff,
    ;
}

impl Scalar {
    /// Zero.
    pub open spec fn spec_zero() -> Scalar {
        Scalar { raw: 0 }
    }

    /// One.
    pub open spec fn spec_one() -> Scalar {
        Scalar { raw: SCALE }
    }

    /// The largest representable value, which stands for "no upper limit".
    pub open spec fn spec_max_value() -> Scalar {
        Scalar { raw: RAW_MAX }
    }

    /// The integer `n`, exactly.
    pub open spec fn spec_from_int(n: i32) -> Scalar {
        Scalar { raw: (n as int * SCALE as int) as i64 }
    }

    /// The count `n`, exactly where it is representable and the largest
    /// value where it is not.
    pub open spec fn spec_from_usize(n: usize) -> Scalar {
        Scalar { raw: saturate(n as int * SCALE as int) }
    }

    /// Saturating sum.
    pub open spec fn spec_plus(self, rhs: Scalar) -> Scalar {
        Scalar { raw: saturate(self.raw + rhs.raw) }
    }

    /// Saturating difference.
    pub open spec fn spec_minus(self, rhs: Scalar) -> Scalar {
        Scalar { raw: saturate(self.raw - rhs.raw) }
    }

    /// Saturating negation: the negation of the smallest value is the largest.
    pub open spec fn spec_negate(self) -> Scalar {
        Scalar { raw: saturate(-(self.raw as int)) }
    }

    /// Saturating product, truncated toward zero.
    pub open spec fn spec_times(self, rhs: Scalar) -> Scalar {
        Scalar { raw: saturate(trunc_div(self.raw as int * rhs.raw as int, SCALE as int)) }
    }

    /// Saturating quotient, truncated toward zero. Dividing by zero gives the
    /// bound on the side of the dividend's sign, and zero for zero.
    pub open spec fn spec_over(self, rhs: Scalar) -> Scalar {
        if rhs.raw == 0 {
            if self.raw > 0 {
                Scalar { raw: RAW_MAX }
            } else if self.raw < 0 {
                Scalar { raw: RAW_MIN }
            } else {
                Scalar { raw: 0 }
            }
        } else {
            Scalar { raw: saturate(trunc_div(self.raw as int * SCALE as int, rhs.raw as int)) }
        }
    }

    /// The quotient `num / den` of two integers, truncated to a multiple of
    /// `1 / 65536`.
    pub open spec fn spec_ratio(num: i32, den: i32) -> Scalar {
        Self::spec_from_int(num).spec_over(Self::spec_from_int(den))
    }

    /// Strictly less.
    pub open spec fn spec_lt(self, rhs: Scalar) -> bool {
        self.raw < rhs.raw
    }

    /// Less or equal.
    pub open spec fn spec_le(self, rhs: Scalar) -> bool {
        self.raw <= rhs.raw
    }

    /// Strictly greater.
    pub open spec fn spec_gt(self, rhs: Scalar) -> bool {
        self.raw > rhs.raw
    }

    /// Greater or equal.
    pub open spec fn spec_ge(self, rhs: Scalar) -> bool {
        self.raw >= rhs.raw
    }

    /// The smaller of two values; the second when they are equal.
    pub open spec fn spec_min(self, rhs: Scalar) -> Scalar {
        if self.raw < rhs.raw {
            self
        } else {
            rhs
        }
    }

    /// The larger of two values; the second when they are equal.
    pub open spec fn spec_max(self, rhs: Scalar) -> Scalar {
        if self.raw > rhs.raw {
            self
        } else {
            rhs
        }
    }

    /// Absolute value, saturating.
    pub open spec fn spec_abs(self) -> Scalar {
        if self.raw < 0 {
            self.spec_negate()
        } else {
            self
        }
    }

    /// The square root, rounded down to a multiple of `1 / 65536`; zero for
    /// values that are not positive.
    pub open spec fn spec_sqrt(self) -> Scalar {
        if self.raw <= 0 {
            Scalar { raw: 0 }
        } else {
            Scalar {
                raw: (choose|r: int| #[trigger] is_floor_sqrt(self.raw as int * SCALE as int, r))
                    as i64,
            }
        }
    }

    /// The value reduced into `[0, period)` by adding or removing whole
    /// periods; zero when the period is not positive.
    pub open spec fn spec_modulo(self, period: Scalar) -> Scalar {
        if period.raw <= 0 {
            Scalar { raw: 0 }
        } else {
            Scalar { raw: (self.raw as int % period.raw as int) as i64 }
        }
    }

    /// The value limited to the interval `[lo, hi]`; `lo` when the interval is
    /// empty.
    pub open spec fn spec_clamp(self, lo: Scalar, hi: Scalar) -> Scalar {
        if self.raw < lo.raw || hi.raw < lo.raw {
            lo
        } else if self.raw > hi.raw {
            hi
        } else {
            self
        }
    }

    /// The greatest integer not above the value.
    pub open spec fn spec_floor(self) -> int {
        self.raw as int / SCALE as int
    }

    /// Zero.
    #[verifier::when_used_as_spec(spec_zero)]
    pub fn zero() -> (r: Scalar)
        ensures
            r == Self::spec_zero(),
    {
        Scalar { raw: 0 }
    }

    /// One.
    #[verifier::when_used_as_spec(spec_one)]
    pub fn one() -> (r: Scalar)
        ensures
            r == Self::spec_one(),
    {
        Scalar { raw: SCALE }
    }

    /// The largest representable value, which stands for "no upper limit".
    #[verifier::when_used_as_spec(spec_max_value)]
    pub fn max_value() -> (r: Scalar)
        ensures
            r == Self::spec_max_value(),
    {
        Scalar { raw: RAW_MAX }
    }

    /// The integer `n`, exactly.
    #[verifier::when_used_as_spec(spec_from_int)]
    pub fn from_int(n: i32) -> (r: Scalar)
        ensures
            r == Self::spec_from_int(n),
            r@ == n * 65536,
    {
        Scalar { raw: (n as i64) * SCALE }
    }

    /// The count `n`, exactly where it is representable and the largest
    /// value where it is not.
    #[verifier::when_used_as_spec(spec_from_usize)]
    pub fn from_usize(n: usize) -> (r: Scalar)
        ensures
            r == Self::spec_from_usize(n),
    {
        Scalar { raw: saturate_wide((n as i128) * 65536) }
    }

    /// The quotient `num / den` of two integers, truncated to a multiple of
    /// `1 / 65536`.
    #[verifier::when_used_as_spec(spec_ratio)]
    pub fn ratio(num: i32, den: i32) -> (r: Scalar)
        ensures
            r == Self::spec_ratio(num, den),
    {
        Self::from_int(num).over(Self::from_int(den))
    }

    /// Saturating sum.
    #[verifier::when_used_as_spec(spec_plus)]
    pub fn plus(self, rhs: Scalar) -> (r: Scalar)
        ensures
            r == self.spec_plus(rhs),
    {
        Scalar { raw: saturate_wide(self.raw as i128 + rhs.raw as i128) }
    }

    /// Saturating difference.
    #[verifier::when_used_as_spec(spec_minus)]
    pub fn minus(self, rhs: Scalar) -> (r: Scalar)
        ensures
            r == self.spec_minus(rhs),
    {
        Scalar { raw: saturate_wide(self.raw as i128 - rhs.raw as i128) }
    }

    /// Saturating negation: the negation of the smallest value is the largest.
    #[verifier::when_used_as_spec(spec_negate)]
    pub fn negate(self) -> (r: Scalar)
        ensures
            r == self.spec_negate(),
    {
        Scalar { raw: saturate_wide(-(self.raw as i128)) }
    }

    /// Saturating product, truncated toward zero.
    #[verifier::when_used_as_spec(spec_times)]
    pub fn times(self, rhs: Scalar) -> (r: Scalar)
        ensures
            r == self.spec_times(rhs),
    {
        proof {
            lemma_product_fits(self.raw as int, rhs.raw as int);
        }
        let wide: i128 = (self.raw as i128) * (rhs.raw as i128);
        Scalar { raw: saturate_wide(wide / (SCALE as i128)) }
    }

    /// Saturating quotient, truncated toward zero. Dividing by zero gives the
    /// bound on the side of the dividend's sign, and zero for zero.
    #[verifier::when_used_as_spec(spec_over)]
    pub fn over(self, rhs: Scalar) -> (r: Scalar)
        ensures
            r == self.spec_over(rhs),
    {
        if rhs.raw == 0 {
            if self.raw > 0 {
                Scalar { raw: RAW_MAX }
            } else if self.raw < 0 {
                Scalar { raw: RAW_MIN }
            } else {
                Scalar { raw: 0 }
            }
        } else {
            let num: u128 = magnitude(self.raw) * 65536;
            let quotient: i128 = (num / magnitude(rhs.raw)) as i128;
            if (self.raw < 0) != (rhs.raw < 0) {
                Scalar { raw: saturate_wide(-quotient) }
            } else {
                Scalar { raw: saturate_wide(quotient) }
            }
        }
    }

    /// Strictly less.
    #[verifier::when_used_as_spec(spec_lt)]
    pub fn lt(self, rhs: Scalar) -> (b: bool)
        ensures
            b == self.spec_lt(rhs),
    {
        self.raw < rhs.raw
    }

    /// Less or equal.
    #[verifier::when_used_as_spec(spec_le)]
    pub fn le(self, rhs: Scalar) -> (b: bool)
        ensures
            b == self.spec_le(rhs),
    {
        self.raw <= rhs.raw
    }

    /// Strictly greater.
    #[verifier::when_used_as_spec(spec_gt)]
    pub fn gt(self, rhs: Scalar) -> (b: bool)
        ensures
            b == self.spec_gt(rhs),
    {
        self.raw > rhs.raw
    }

    /// Greater or equal.
    #[verifier::when_used_as_spec(spec_ge)]
    pub fn ge(self, rhs: Scalar) -> (b: bool)
        ensures
            b == self.spec_ge(rhs),
    {
        self.raw >= rhs.raw
    }

    /// The smaller of two values; the second when they are equal.
    #[verifier::when_used_as_spec(spec_min)]
    pub fn min(self, rhs: Scalar) -> (r: Scalar)
        ensures
            r == self.spec_min(rhs),
    {
        if self.raw < rhs.raw {
            self
        } else {
            rhs
        }
    }

    /// The larger of two values; the second when they are equal.
    #[verifier::when_used_as_spec(spec_max)]
    pub fn max(self, rhs: Scalar) -> (r: Scalar)
        ensures
            r == self.spec_max(rhs),
    {
        if self.raw > rhs.raw {
            self
        } else {
            rhs
        }
    }

    /// Absolute value, saturating.
    #[verifier::when_used_as_spec(spec_abs)]
    pub fn abs(self) -> (r: Scalar)
        ensures
            r == self.spec_abs(),
    {
        if self.raw < 0 {
            self.negate()
        } else {
            self
        }
    }

    /// The square root, rounded down to a multiple of `1 / 65536`. A value
    /// that is not positive has the root zero.
    #[verifier::when_used_as_spec(spec_sqrt)]
    pub fn sqrt(self) -> (r: Scalar)
        ensures
            r == self.spec_sqrt(),
            self.raw <= 0 ==> r.raw == 0,
            self.raw > 0 ==> is_floor_sqrt(self.raw as int * 65536, r.raw as int),
    {
        if self.raw <= 0 {
            Scalar { raw: 0 }
        } else {
            let root: u128 = floor_sqrt((self.raw as u128) * 65536);
            let r = Scalar { raw: root as i64 };
            proof {
                let n = self.raw as int * SCALE as int;
                let w = choose|w: int| #[trigger] is_floor_sqrt(n, w);
                lemma_floor_sqrt_unique(n, w, r.raw as int);
            }
            r
        }
    }

    /// The value reduced into `[0, period)` by adding or removing whole
    /// periods; zero when the period is not positive.
    #[verifier::when_used_as_spec(spec_modulo)]
    pub fn modulo(self, period: Scalar) -> (r: Scalar)
        ensures
            r == self.spec_modulo(period),
            period@ > 0 ==> 0 <= r@ < period@,
    {
        if period.raw <= 0 {
            Scalar { raw: 0 }
        } else {
            let m: i64 = (magnitude(self.raw) % (period.raw as u128)) as i64;
            proof {
                lemma_modulo_of_negative(self.raw as int, period.raw as int);
            }
            if self.raw < 0 && m != 0 {
                Scalar { raw: period.raw - m }
            } else {
                Scalar { raw: m }
            }
        }
    }

    /// The value limited to the interval `[lo, hi]`; `lo` when the interval is
    /// empty.
    #[verifier::when_used_as_spec(spec_clamp)]
    pub fn clamp(self, lo: Scalar, hi: Scalar) -> (r: Scalar)
        ensures
            r == self.spec_clamp(lo, hi),
            lo@ <= hi@ ==> lo@ <= r@ <= hi@,
    {
        if self.raw < lo.raw || hi.raw < lo.raw {
            lo
        } else if self.raw > hi.raw {
            hi
        } else {
            self
        }
    }

    /// The greatest integer not above the value.
    pub fn floor(self) -> (n: i64)
        ensures
            n == self.spec_floor(),
    {
        if self.raw >= 0 {
            self.raw / SCALE
        } else {
            let q: i64 = self.raw / SCALE;
            if q * SCALE == self.raw {
                q
            } else {
                q - 1
            }
        }
    }
}

/// Zero times anything is zero.
pub proof fn lemma_times_zero(a: Scalar)
    ensures
        a.times(Scalar::zero()) == Scalar::zero(),
        Scalar::zero().times(a) == Scalar::zero(),
{
    assert(a@ * 0 == 0 && 0 * a@ == 0) by (nonlinear_arith);
}

/// Zero divided by anything is zero.
pub proof fn lemma_zero_over(a: Scalar)
    ensures
        Scalar::zero().over(a) == Scalar::zero(),
{
    if a@ > 0 {
        assert(0int / a@ == 0) by (nonlinear_arith)
            requires
                a@ > 0,
        ;
    } else if a@ < 0 {
        assert(0int / (-a@) == 0) by (nonlinear_arith)
            requires
                a@ < 0,
        ;
    }
}

/// Dividing by a number that is not negative keeps the order of the
/// dividends.
pub proof fn lemma_over_monotone(a: Scalar, b: Scalar, d: Scalar)
    requires
        a@ <= b@,
        d@ >= 0,
    ensures
        a.over(d)@ <= b.over(d)@,
{
    if d@ > 0 {
        let x = a@ * 65536;
        let y = b@ * 65536;
        if x >= 0 {
            vstd::arithmetic::div_mod::lemma_div_is_ordered(x, y, d@);
        } else if y >= 0 {
            vstd::arithmetic::div_mod::lemma_div_is_ordered(0, -x, d@);
            vstd::arithmetic::div_mod::lemma_div_is_ordered(0, y, d@);
            assert(0int / d@ == 0) by (nonlinear_arith)
                requires
                    d@ > 0,
            ;
        } else {
            vstd::arithmetic::div_mod::lemma_div_is_ordered(-y, -x, d@);
        }
    }
}

/// The product of a number with itself is not negative.
pub proof fn lemma_square_not_negative(a: Scalar)
    ensures
        a.times(a)@ >= 0,
{
    assert(a@ * a@ >= 0) by (nonlinear_arith);
}

impl core::ops::Add for Scalar {
    type Output = Scalar;

    fn add(self, rhs: Scalar) -> (r: Scalar) {
        self.plus(rhs)
    }
}

impl vstd::std_specs::ops::AddSpecImpl for Scalar {
    open spec fn obeys_add_spec() -> bool {
        true
    }

    open spec fn add_req(self, rhs: Scalar) -> bool {
        true
    }

    open spec fn add_spec(self, rhs: Scalar) -> Scalar {
        self.spec_plus(rhs)
    }
}

impl core::ops::Sub for Scalar {
    type Output = Scalar;

    fn sub(self, rhs: Scalar) -> (r: Scalar) {
        self.minus(rhs)
    }
}

impl vstd::std_specs::ops::SubSpecImpl for Scalar {
    open spec fn obeys_sub_spec() -> bool {
        true
    }

    open spec fn sub_req(self, rhs: Scalar) -> bool {
        true
    }

    open spec fn sub_spec(self, rhs: Scalar) -> Scalar {
        self.spec_minus(rhs)
    }
}

impl core::ops::Mul for Scalar {
    type Output = Scalar;

    fn mul(self, rhs: Scalar) -> (r: Scalar) {
        self.times(rhs)
    }
}

impl vstd::std_specs::ops::MulSpecImpl for Scalar {
    open spec fn obeys_mul_spec() -> bool {
        true
    }

    open spec fn mul_req(self, rhs: Scalar) -> bool {
        true
    }

    open spec fn mul_spec(self, rhs: Scalar) -> Scalar {
        self.spec_times(rhs)
    }
}

impl core::ops::Div for Scalar {
    type Output = Scalar;

    fn div(self, rhs: Scalar) -> (r: Scalar) {
        self.over(rhs)
    }
}

impl vstd::std_specs::ops::DivSpecImpl for Scalar {
    open spec fn obeys_div_spec() -> bool {
        true
    }

    open spec fn div_req(self, rhs: Scalar) -> bool {
        true
    }

    open spec fn div_spec(self, rhs: Scalar) -> Scalar {
        self.spec_over(rhs)
    }
}

impl core::ops::Neg for Scalar {
    type Output = Scalar;

    fn neg(self) -> (r: Scalar) {
        self.negate()
    }
}

impl vstd::std_specs::ops::NegSpecImpl for Scalar {
    open spec fn obeys_neg_spec() -> bool {
        true
    }

    open spec fn neg_req(self) -> bool {
        true
    }

    open spec fn neg_spec(self) -> Scalar {
        self.spec_negate()
    }
}

} // verus!
