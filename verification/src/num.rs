//! Decimal numbers with six fractional digits.
//!
//! A [`Num`] counts millionths in an `i64`. Sums and differences are exact;
//! products, quotients and roots are cut after the sixth decimal (rounded
//! toward zero). A result that does not exist (a quotient by zero, the root of
//! a negative number) or that leaves the range of an `i64` is
//! [`Num::Undefined`], and every operation on an undefined number is undefined
//! again, with the exceptions of [`Num::min`] and [`Num::max`], which yield to
//! the other number, and of the power by zero, which is one.
//! No comparison holds of an undefined number.
//!
//! Square, cube and fifth roots are the roots themselves, cut. A power by
//! another exponent between zero and one is taken on a ladder of square
//! roots: see [`Num::powf`].

use vstd::prelude::*;

verus! {

/// The number of millionths in one.
pub const SCALE: i64 = 1_000_000;

/// The number of square roots that [`Num::powf`] takes of its base.
pub const RUNGS: u32 = 20;

/// A number in millionths, or no number.
#[derive(Clone, Copy, Debug, PartialEq, Eq, Structural)]
pub enum Num {
    /// No number.
    Undefined,
    /// A number, counted in millionths.
    Micro(i64),
}

/// A fraction of whole numbers, exact. The denominator is above zero.
#[derive(Clone, Copy, Debug, PartialEq, Eq, Structural)]
pub struct Ratio {
    pub num: i64,
    pub den: i64,
}

/// The quotient of `n` by a positive `d`, rounded toward zero.
pub open spec fn cut(n: int, d: int) -> int
    recommends
        d > 0,
{
    if n >= 0 {
        n / d
    } else {
        -((-n) / d)
    }
}

/// The quotient of `n` by `d`, which is not zero, rounded toward zero.
pub open spec fn quot(n: int, d: int) -> int
    recommends
        d != 0,
{
    if d > 0 {
        cut(n, d)
    } else {
        cut(-n, -d)
    }
}

/// The number of `v` millionths, if an `i64` holds them.
pub open spec fn fit(v: int) -> Num {
    if i64::MIN <= v <= i64::MAX {
        Num::Micro(v as i64)
    } else {
        Num::Undefined
    }
}

/// `r` is the square root of `n`, rounded down.
pub open spec fn is_floor_sqrt(r: int, n: int) -> bool {
    0 <= r && r * r <= n < (r + 1) * (r + 1)
}

/// The square root of `n`, rounded down.
pub open spec fn floor_sqrt(n: int) -> int
    recommends
        n >= 0,
{
    choose|r: int| is_floor_sqrt(r, n)
}

/// Only one number is the rounded-down square root of `n`.
pub proof fn lemma_floor_sqrt_unique(r: int, n: int)
    requires
        is_floor_sqrt(r, n),
    ensures
        floor_sqrt(n) == r,
{
    let s = floor_sqrt(n);
    assert(s == r) by (nonlinear_arith)
        requires
            0 <= r,
            0 <= s,
            r * r <= n < (r + 1) * (r + 1),
            s * s <= n < (s + 1) * (s + 1),
    ;
}

/// The rounded-down square root of `n`.
pub fn isqrt(n: u128) -> (r: u128)
    ensures
        is_floor_sqrt(r as int, n as int),
{
    let mut lo: u128 = 0;
    let mut hi: u128 = 0x1_0000_0000_0000_0000;
    assert(hi * hi > u128::MAX) by (nonlinear_arith)
        requires
            hi == 0x1_0000_0000_0000_0000,
    ;
    while hi - lo > 1
        invariant
            lo < hi <= 0x1_0000_0000_0000_0000,
            lo * lo <= n,
            n < hi * hi,
        decreases hi - lo,
    {
        let mid: u128 = lo + (hi - lo) / 2;
        assert(mid * mid <= u128::MAX) by (nonlinear_arith)
            requires
                mid < 0x1_0000_0000_0000_0000,
        ;
        if mid * mid <= n {
            lo = mid;
        } else {
            hi = mid;
        }
    }
    lo
}

/// `r` is the cube root of `n`, rounded down.
pub open spec fn is_floor_cbrt(r: int, n: int) -> bool {
    0 <= r && r * r * r <= n < (r + 1) * (r + 1) * (r + 1)
}

/// The cube root of `n`, rounded down.
pub open spec fn floor_cbrt(n: int) -> int
    recommends
        n >= 0,
{
    choose|r: int| is_floor_cbrt(r, n)
}

/// Only one number is the rounded-down cube root of `n`.
pub proof fn lemma_floor_cbrt_unique(r: int, n: int)
    requires
        is_floor_cbrt(r, n),
    ensures
        floor_cbrt(n) == r,
{
    let s = floor_cbrt(n);
    if s < r {
        lemma_cube_grows(s + 1, r);
    } else if r < s {
        lemma_cube_grows(r + 1, s);
    }
}

/// Of two numbers that are not negative, the smaller has the smaller cube.
pub proof fn lemma_cube_grows(a: int, b: int)
    requires
        0 <= a <= b,
    ensures
        a * a * a <= b * b * b,
{
    assert(a * a <= b * b) by (nonlinear_arith)
        requires
            0 <= a <= b,
    ;
    assert(a * a * a <= b * b * b) by (nonlinear_arith)
        requires
            0 <= a <= b,
            0 <= a * a <= b * b,
    ;
}

/// The rounded-down cube root of `n`.
pub fn icbrt(n: u128) -> (r: u128)
    ensures
        is_floor_cbrt(r as int, n as int),
{
    let mut lo: u128 = 0;
    let mut hi: u128 = 6_981_463_658_332;
    assert(hi * hi * hi > u128::MAX) by (nonlinear_arith)
        requires
            hi == 6_981_463_658_332,
    ;
    while hi - lo > 1
        invariant
            lo < hi <= 6_981_463_658_332,
            lo * lo * lo <= n,
            n < hi * hi * hi,
        decreases hi - lo,
    {
        let mid: u128 = lo + (hi - lo) / 2;
        assert(mid * mid <= 48_740_834_812_596_469_905_705_561 && mid * mid * mid
            <= 340_282_366_920_856_711_588_743_492_508_790_678_691) by (nonlinear_arith)
            requires
                mid <= 6_981_463_658_331,
        ;
        if mid * mid * mid <= n {
            lo = mid;
        } else {
            hi = mid;
        }
    }
    lo
}

/// `r` is the fifth root of `n`, rounded down.
pub open spec fn is_floor_root5(r: int, n: int) -> bool {
    0 <= r && r * r * r * r * r <= n < (r + 1) * (r + 1) * (r + 1) * (r + 1) * (r + 1)
}

/// The fifth root of `n`, rounded down.
pub open spec fn floor_root5(n: int) -> int
    recommends
        n >= 0,
{
    choose|r: int| is_floor_root5(r, n)
}

/// Only one number is the rounded-down fifth root of `n`.
pub proof fn lemma_floor_root5_unique(r: int, n: int)
    requires
        is_floor_root5(r, n),
    ensures
        floor_root5(n) == r,
{
    let s = floor_root5(n);
    if s < r {
        lemma_fifth_power_grows(s + 1, r);
    } else if r < s {
        lemma_fifth_power_grows(r + 1, s);
    }
}

/// Of two numbers that are not negative, the smaller has the smaller fifth
/// power.
pub proof fn lemma_fifth_power_grows(a: int, b: int)
    requires
        0 <= a <= b,
    ensures
        a * a * a * a * a <= b * b * b * b * b,
{
    lemma_cube_grows(a, b);
    assert(a * a * a * a <= b * b * b * b) by (nonlinear_arith)
        requires
            0 <= a <= b,
            0 <= a * a * a <= b * b * b,
    ;
    assert(a * a * a * a * a <= b * b * b * b * b) by (nonlinear_arith)
        requires
            0 <= a <= b,
            0 <= a * a * a * a <= b * b * b * b,
    ;
}

/// The number from which on no fifth root is taken here: ten to the power
/// of 24 times it is more than a `u128` holds.
pub const ROOT5_LIMIT: i64 = 340_282_366_920_939;

/// The rounded-down fifth root of `n`.
pub fn iroot5(n: u128) -> (r: u128)
    ensures
        is_floor_root5(r as int, n as int),
{
    let mut lo: u128 = 0;
    let mut hi: u128 = 50_859_009;
    assert(hi * hi * hi * hi * hi > u128::MAX) by (nonlinear_arith)
        requires
            hi == 50_859_009,
    ;
    while hi - lo > 1
        invariant
            lo < hi <= 50_859_009,
            lo * lo * lo * lo * lo <= n,
            n < hi * hi * hi * hi * hi,
        decreases hi - lo,
    {
        let mid: u128 = lo + (hi - lo) / 2;
        assert(mid * mid <= 2_586_638_694_744_064 && mid * mid * mid
            <= 131_553_878_069_097_908_928_512 && mid * mid * mid * mid
            <= 6_690_699_737_147_275_102_978_463_236_096 && mid * mid * mid * mid * mid
            <= 340_282_351_457_171_161_640_582_485_552_312_352_768) by (nonlinear_arith)
            requires
                mid <= 50_859_008,
        ;
        if mid * mid * mid * mid * mid <= n {
            lo = mid;
        } else {
            hi = mid;
        }
    }
    lo
}

impl Num {
    /// Whether this is a number.
    pub open spec fn defined(self) -> bool {
        self is Micro
    }

    /// The millionths of a number; zero for no number.
    pub open spec fn micro(self) -> int {
        match self {
            Num::Micro(m) => m as int,
            Num::Undefined => 0,
        }
    }

    /// Zero.
    pub open spec fn zero() -> Num {
        Num::Micro(0)
    }

    /// One.
    pub open spec fn one() -> Num {
        Num::Micro(SCALE)
    }

    /// The whole number `v`.
    pub open spec fn spec_whole(v: int) -> Num {
        fit(v * SCALE)
    }

    pub open spec fn spec_plus(self, o: Num) -> Num {
        if self.defined() && o.defined() {
            fit(self.micro() + o.micro())
        } else {
            Num::Undefined
        }
    }

    pub open spec fn spec_minus(self, o: Num) -> Num {
        if self.defined() && o.defined() {
            fit(self.micro() - o.micro())
        } else {
            Num::Undefined
        }
    }

    pub open spec fn spec_neg(self) -> Num {
        if self.defined() {
            fit(-self.micro())
        } else {
            Num::Undefined
        }
    }

    pub open spec fn spec_abs(self) -> Num {
        if self.defined() {
            fit(if self.micro() < 0 { -self.micro() } else { self.micro() })
        } else {
            Num::Undefined
        }
    }

    pub open spec fn spec_times(self, o: Num) -> Num {
        if self.defined() && o.defined() {
            fit(cut(self.micro() * o.micro(), SCALE as int))
        } else {
            Num::Undefined
        }
    }

    pub open spec fn spec_times_ratio(self, r: Ratio) -> Num {
        if self.defined() && r.den > 0 {
            fit(cut(self.micro() * r.num, r.den as int))
        } else {
            Num::Undefined
        }
    }

    pub open spec fn spec_times_square(self, s: Num) -> Num {
        if self.defined() && s.defined() && 0 <= s.micro() <= SCALE {
            fit(cut(self.micro() * (s.micro() * s.micro()), SCALE * SCALE))
        } else {
            self.times(s).times(s)
        }
    }

    pub open spec fn spec_over_product(self, a: Num, b: Num) -> Num {
        if self.defined() && a.defined() && b.defined() && a.micro() * b.micro() != 0 {
            fit(quot(self.micro() * (SCALE * SCALE), a.micro() * b.micro()))
        } else {
            Num::Undefined
        }
    }

    pub open spec fn spec_over(self, o: Num) -> Num {
        if self.defined() && o.defined() && o.micro() != 0 {
            fit(quot(self.micro() * SCALE, o.micro()))
        } else {
            Num::Undefined
        }
    }

    pub open spec fn spec_sqrt(self) -> Num {
        if self.defined() && self.micro() >= 0 {
            Num::Micro(floor_sqrt(self.micro() * SCALE) as i64)
        } else {
            Num::Undefined
        }
    }

    pub open spec fn spec_cbrt(self) -> Num {
        if self.defined() && self.micro() >= 0 {
            Num::Micro(floor_cbrt(self.micro() * SCALE * SCALE) as i64)
        } else {
            Num::Undefined
        }
    }

    pub open spec fn spec_root5(self) -> Num {
        if self.defined() && 0 <= self.micro() < ROOT5_LIMIT {
            Num::Micro(floor_root5(self.micro() * SCALE * SCALE * SCALE * SCALE) as i64)
        } else {
            Num::Undefined
        }
    }

    /// The product of the rungs that `frac` picks: `root` is the rung above
    /// (the base itself at the start), `frac` the exponent in millionths that
    /// is still to be spent, `steps` the number of rungs left.
    pub open spec fn spec_ladder(root: Num, frac: int, steps: nat) -> Num
        decreases steps,
    {
        if steps == 0 {
            Num::one()
        } else {
            let rung = root.spec_sqrt();
            if 2 * frac >= SCALE {
                rung.spec_times(Self::spec_ladder(rung, 2 * frac - SCALE, (steps - 1) as nat))
            } else {
                Self::spec_ladder(rung, 2 * frac, (steps - 1) as nat)
            }
        }
    }

    pub open spec fn spec_powf(self, p: Num) -> Num {
        if p == Num::zero() {
            Num::one()
        } else if self.defined() && p.defined() && self.micro() >= 0 && 0 < p.micro() <= SCALE {
            if p.micro() == SCALE {
                self
            } else {
                Self::spec_ladder(self, p.micro(), RUNGS as nat)
            }
        } else {
            Num::Undefined
        }
    }

    pub open spec fn spec_lt(self, o: Num) -> bool {
        self.defined() && o.defined() && self.micro() < o.micro()
    }

    pub open spec fn spec_le(self, o: Num) -> bool {
        self.defined() && o.defined() && self.micro() <= o.micro()
    }

    pub open spec fn spec_gt(self, o: Num) -> bool {
        self.defined() && o.defined() && self.micro() > o.micro()
    }

    pub open spec fn spec_ge(self, o: Num) -> bool {
        self.defined() && o.defined() && self.micro() >= o.micro()
    }

    pub open spec fn spec_min(self, o: Num) -> Num {
        if !self.defined() {
            o
        } else if !o.defined() {
            self
        } else if o.micro() < self.micro() {
            o
        } else {
            self
        }
    }

    pub open spec fn spec_max(self, o: Num) -> Num {
        if !self.defined() {
            o
        } else if !o.defined() {
            self
        } else if o.micro() > self.micro() {
            o
        } else {
            self
        }
    }

    pub open spec fn spec_below(self, n: int, d: int) -> bool
        recommends
            d > 0,
    {
        self.defined() && self.micro() * d < n * SCALE
    }

    pub open spec fn spec_trunc_u32(self) -> u32 {
        if !self.defined() || self.micro() < 0 {
            0
        } else if self.micro() / (SCALE as int) > u32::MAX {
            u32::MAX
        } else {
            (self.micro() / (SCALE as int)) as u32
        }
    }

    /// The whole number `v`.
    pub fn from_u32(v: u32) -> (r: Num)
        ensures
            r == Num::spec_whole(v as int),
            r == Num::Micro((v * SCALE) as i64),
    {
        Num::Micro((v as i64) * SCALE)
    }

    /// The whole number `v`, undefined where its millionths leave an `i64`.
    pub fn from_i64(v: i64) -> (r: Num)
        ensures
            r == Num::spec_whole(v as int),
    {
        Self::fit_wide((v as i128) * (SCALE as i128))
    }

    /// The number of `v` millionths, if an `i64` holds them.
    fn fit_wide(v: i128) -> (r: Num)
        ensures
            r == fit(v as int),
    {
        if v < i64::MIN as i128 || v > i64::MAX as i128 {
            Num::Undefined
        } else {
            Num::Micro(v as i64)
        }
    }

    /// Whether this is a number.
    pub fn is_defined(self) -> (r: bool)
        ensures
            r == self.defined(),
    {
        match self {
            Num::Micro(_) => true,
            Num::Undefined => false,
        }
    }

    /// The millionths of a number.
    pub fn to_micro(self) -> (r: Option<i64>)
        ensures
            r == (match self {
                Num::Micro(m) => Some(m),
                Num::Undefined => None::<i64>,
            }),
    {
        match self {
            Num::Micro(m) => Some(m),
            Num::Undefined => None,
        }
    }

    /// The sum.
    #[verifier::when_used_as_spec(spec_plus)]
    pub fn plus(self, o: Num) -> (r: Num)
        ensures
            r == self.spec_plus(o),
    {
        match (self, o) {
            (Num::Micro(a), Num::Micro(b)) => Self::fit_wide((a as i128) + (b as i128)),
            _ => Num::Undefined,
        }
    }

    /// The difference.
    #[verifier::when_used_as_spec(spec_minus)]
    pub fn minus(self, o: Num) -> (r: Num)
        ensures
            r == self.spec_minus(o),
    {
        match (self, o) {
            (Num::Micro(a), Num::Micro(b)) => Self::fit_wide((a as i128) - (b as i128)),
            _ => Num::Undefined,
        }
    }

    /// The number with the other sign.
    #[verifier::when_used_as_spec(spec_neg)]
    pub fn neg(self) -> (r: Num)
        ensures
            r == self.spec_neg(),
    {
        match self {
            Num::Micro(a) => Self::fit_wide(-(a as i128)),
            Num::Undefined => Num::Undefined,
        }
    }

    /// The number without its sign.
    #[verifier::when_used_as_spec(spec_abs)]
    pub fn abs(self) -> (r: Num)
        ensures
            r == self.spec_abs(),
    {
        match self {
            Num::Micro(a) => {
                if a < 0 {
                    Self::fit_wide(-(a as i128))
                } else {
                    Num::Micro(a)
                }
            },
            Num::Undefined => Num::Undefined,
        }
    }

    /// The product, cut after the sixth decimal.
    #[verifier::when_used_as_spec(spec_times)]
    pub fn times(self, o: Num) -> (r: Num)
        ensures
            r == self.spec_times(o),
    {
        match (self, o) {
            (Num::Micro(a), Num::Micro(b)) => {
                assert(-0x4000_0000_0000_0000_0000_0000_0000_0000 <= a * b
                    <= 0x4000_0000_0000_0000_0000_0000_0000_0000) by (nonlinear_arith)
                    requires
                        -0x8000_0000_0000_0000 <= a <= 0x8000_0000_0000_0000,
                        -0x8000_0000_0000_0000 <= b <= 0x8000_0000_0000_0000,
                ;
                let p: i128 = (a as i128) * (b as i128);
                Self::fit_wide(p / (SCALE as i128))
            },
            _ => Num::Undefined,
        }
    }

    /// The product with a fraction, cut once, after the sixth decimal:
    /// undefined where the fraction's denominator is not above zero.
    #[verifier::when_used_as_spec(spec_times_ratio)]
    pub fn times_ratio(self, r: Ratio) -> (q: Num)
        ensures
            q == self.spec_times_ratio(r),
    {
        match self {
            Num::Micro(a) => {
                if r.den <= 0 {
                    Num::Undefined
                } else {
                    assert(-0x4000_0000_0000_0000_0000_0000_0000_0000 <= a * r.num
                        <= 0x4000_0000_0000_0000_0000_0000_0000_0000) by (nonlinear_arith)
                        requires
                            -0x8000_0000_0000_0000 <= a <= 0x8000_0000_0000_0000,
                            -0x8000_0000_0000_0000 <= r.num <= 0x8000_0000_0000_0000,
                    ;
                    let p: i128 = (a as i128) * (r.num as i128);
                    Self::fit_wide(p / (r.den as i128))
                }
            },
            Num::Undefined => Num::Undefined,
        }
    }

    /// The product with the square of `s`. For `s` from zero to one the
    /// exact product is cut once, after the sixth decimal, so that it lies
    /// less than a millionth below the product of the numbers; for any other
    /// `s` it is the product with `s`, taken twice.
    #[verifier::when_used_as_spec(spec_times_square)]
    pub fn times_square(self, s: Num) -> (r: Num)
        ensures
            r == self.spec_times_square(s),
    {
        match (self, s) {
            (Num::Micro(a), Num::Micro(b)) => {
                if 0 <= b && b <= SCALE {
                    assert(0 <= b * b <= SCALE * SCALE) by (nonlinear_arith)
                        requires
                            0 <= b <= SCALE,
                    ;
                    let square: i128 = (b as i128) * (b as i128);
                    assert(-0x4000_0000_0000_0000_0000_0000_0000_0000 <= a * square
                        <= 0x4000_0000_0000_0000_0000_0000_0000_0000) by (nonlinear_arith)
                        requires
                            -0x8000_0000_0000_0000 <= a <= 0x8000_0000_0000_0000,
                            0 <= square <= 1_000_000_000_000,
                    ;
                    let p: i128 = (a as i128) * square;
                    Self::fit_wide(p / 1_000_000_000_000)
                } else {
                    self.times(s).times(s)
                }
            },
            _ => Num::Undefined,
        }
    }

    /// The quotient, cut after the sixth decimal; undefined by zero.
    #[verifier::when_used_as_spec(spec_over)]
    pub fn over(self, o: Num) -> (r: Num)
        ensures
            r == self.spec_over(o),
    {
        match (self, o) {
            (Num::Micro(a), Num::Micro(b)) => {
                if b == 0 {
                    Num::Undefined
                } else {
                    let n: i128 = (a as i128) * (SCALE as i128);
                    if b > 0 {
                        Self::fit_wide(n / (b as i128))
                    } else {
                        Self::fit_wide((-n) / (-(b as i128)))
                    }
                }
            },
            _ => Num::Undefined,
        }
    }

    /// The quotient by the product of `a` and `b`, cut once, after the sixth
    /// decimal: the product itself may be beyond what a number holds.
    /// Undefined where `a` or `b` is zero.
    #[verifier::when_used_as_spec(spec_over_product)]
    pub fn over_product(self, a: Num, b: Num) -> (r: Num)
        ensures
            r == self.spec_over_product(a, b),
    {
        match (self, a, b) {
            (Num::Micro(n), Num::Micro(x), Num::Micro(y)) => {
                if x == 0 || y == 0 {
                    assert(x * y == 0) by (nonlinear_arith)
                        requires
                            x == 0 || y == 0,
                    ;
                    Num::Undefined
                } else {
                    assert(x * y != 0 && -0x4000_0000_0000_0000_0000_0000_0000_0000 <= x * y
                        <= 0x4000_0000_0000_0000_0000_0000_0000_0000) by (nonlinear_arith)
                        requires
                            x != 0,
                            y != 0,
                            -0x8000_0000_0000_0000 <= x <= 0x8000_0000_0000_0000,
                            -0x8000_0000_0000_0000 <= y <= 0x8000_0000_0000_0000,
                    ;
                    assert(-0x4000_0000_0000_0000_0000_0000_0000_0000 <= n * (SCALE * SCALE)
                        <= 0x4000_0000_0000_0000_0000_0000_0000_0000) by (nonlinear_arith)
                        requires
                            -0x8000_0000_0000_0000 <= n <= 0x8000_0000_0000_0000,
                            SCALE == 1_000_000,
                    ;
                    let top: i128 = (n as i128) * 1_000_000_000_000;
                    let bottom: i128 = (x as i128) * (y as i128);
                    if bottom > 0 {
                        Self::fit_wide(top / bottom)
                    } else {
                        Self::fit_wide((-top) / (-bottom))
                    }
                }
            },
            _ => Num::Undefined,
        }
    }

    /// The square root, cut after the sixth decimal; undefined of a negative
    /// number.
    #[verifier::when_used_as_spec(spec_sqrt)]
    pub fn sqrt(self) -> (r: Num)
        ensures
            r == self.spec_sqrt(),
    {
        match self {
            Num::Micro(a) => {
                if a < 0 {
                    Num::Undefined
                } else {
                    let n: u128 = (a as u128) * (SCALE as u128);
                    let root: u128 = isqrt(n);
                    proof {
                        lemma_floor_sqrt_unique(root as int, n as int);
                        assert(root < 4_000_000_000_000) by (nonlinear_arith)
                            requires
                                root * root <= n,
                                n < 16_000_000_000_000_000_000_000_000,
                        ;
                    }
                    Num::Micro(root as i64)
                }
            },
            Num::Undefined => Num::Undefined,
        }
    }

    /// The cube root, cut after the sixth decimal; undefined of a negative
    /// number.
    #[verifier::when_used_as_spec(spec_cbrt)]
    pub fn cbrt(self) -> (r: Num)
        ensures
            r == self.spec_cbrt(),
    {
        match self {
            Num::Micro(a) => {
                if a < 0 {
                    Num::Undefined
                } else {
                    let n: u128 = (a as u128) * 1_000_000_000_000;
                    let root: u128 = icbrt(n);
                    proof {
                        assert(a * SCALE * SCALE == n) by (nonlinear_arith)
                            requires
                                n == a * 1_000_000_000_000,
                                SCALE == 1_000_000,
                        ;
                        lemma_floor_cbrt_unique(root as int, n as int);
                        assert(root < 22_000_000_000) by (nonlinear_arith)
                            requires
                                root * root * root <= n,
                                n < 10_000_000_000_000_000_000_000_000_000_000,
                        ;
                    }
                    Num::Micro(root as i64)
                }
            },
            Num::Undefined => Num::Undefined,
        }
    }

    /// The fifth root, cut after the sixth decimal; undefined of a negative
    /// number, and of one from `ROOT5_LIMIT` millionths on.
    #[verifier::when_used_as_spec(spec_root5)]
    pub fn root5(self) -> (r: Num)
        ensures
            r == self.spec_root5(),
    {
        match self {
            Num::Micro(a) => {
                if a < 0 || a >= ROOT5_LIMIT {
                    Num::Undefined
                } else {
                    let n: u128 = (a as u128) * 1_000_000_000_000_000_000_000_000;
                    let root: u128 = iroot5(n);
                    proof {
                        assert(a * SCALE * SCALE * SCALE * SCALE == n) by (nonlinear_arith)
                            requires
                                n == a * 1_000_000_000_000_000_000_000_000,
                                SCALE == 1_000_000,
                        ;
                        lemma_floor_root5_unique(root as int, n as int);
                    }
                    Num::Micro(root as i64)
                }
            },
            Num::Undefined => Num::Undefined,
        }
    }

    /// The product of the rungs that `frac` picks, of `steps` rungs below
    /// `root`.
    fn ladder(root: Num, frac: i64, steps: u32) -> (r: Num)
        requires
            0 <= frac < SCALE,
        ensures
            r == Self::spec_ladder(root, frac as int, steps as nat),
        decreases steps,
    {
        if steps == 0 {
            Num::Micro(SCALE)
        } else {
            let rung = root.sqrt();
            if 2 * frac >= SCALE {
                rung.times(Self::ladder(rung, 2 * frac - SCALE, steps - 1))
            } else {
                Self::ladder(rung, 2 * frac, steps - 1)
            }
        }
    }

    /// The power of a number that is not negative by an exponent `p` from
    /// zero to one. The exponent is read in binary, cut after `RUNGS` places:
    /// the result is the product of the repeated square roots of the base
    /// whose place in `p` is set. The power by zero is one, of whatever base.
    #[verifier::when_used_as_spec(spec_powf)]
    pub fn powf(self, p: Num) -> (r: Num)
        ensures
            r == self.spec_powf(p),
    {
        match p {
            Num::Micro(e) => {
                if e == 0 {
                    Num::Micro(SCALE)
                } else {
                    match self {
                        Num::Micro(a) => {
                            if a < 0 || e < 0 || e > SCALE {
                                Num::Undefined
                            } else if e == SCALE {
                                self
                            } else {
                                Self::ladder(self, e, RUNGS)
                            }
                        },
                        Num::Undefined => Num::Undefined,
                    }
                }
            },
            Num::Undefined => Num::Undefined,
        }
    }

    /// Whether both are numbers and this one is the smaller.
    #[verifier::when_used_as_spec(spec_lt)]
    pub fn lt(self, o: Num) -> (r: bool)
        ensures
            r == self.spec_lt(o),
    {
        match (self, o) {
            (Num::Micro(a), Num::Micro(b)) => a < b,
            _ => false,
        }
    }

    /// Whether both are numbers and this one is not the larger.
    #[verifier::when_used_as_spec(spec_le)]
    pub fn le(self, o: Num) -> (r: bool)
        ensures
            r == self.spec_le(o),
    {
        match (self, o) {
            (Num::Micro(a), Num::Micro(b)) => a <= b,
            _ => false,
        }
    }

    /// Whether both are numbers and this one is the larger.
    #[verifier::when_used_as_spec(spec_gt)]
    pub fn gt(self, o: Num) -> (r: bool)
        ensures
            r == self.spec_gt(o),
    {
        match (self, o) {
            (Num::Micro(a), Num::Micro(b)) => a > b,
            _ => false,
        }
    }

    /// Whether both are numbers and this one is not the smaller.
    #[verifier::when_used_as_spec(spec_ge)]
    pub fn ge(self, o: Num) -> (r: bool)
        ensures
            r == self.spec_ge(o),
    {
        match (self, o) {
            (Num::Micro(a), Num::Micro(b)) => a >= b,
            _ => false,
        }
    }

    /// The smaller of two numbers; where one is undefined, the other.
    #[verifier::when_used_as_spec(spec_min)]
    pub fn min(self, o: Num) -> (r: Num)
        ensures
            r == self.spec_min(o),
    {
        match (self, o) {
            (Num::Micro(a), Num::Micro(b)) => if b < a { o } else { self },
            (Num::Undefined, _) => o,
            _ => self,
        }
    }

    /// The larger of two numbers; where one is undefined, the other.
    #[verifier::when_used_as_spec(spec_max)]
    pub fn max(self, o: Num) -> (r: Num)
        ensures
            r == self.spec_max(o),
    {
        match (self, o) {
            (Num::Micro(a), Num::Micro(b)) => if b > a { o } else { self },
            (Num::Undefined, _) => o,
            _ => self,
        }
    }

    /// Whether this is a number below the fraction `n / d`, taken exactly.
    pub fn below(self, n: i64, d: i64) -> (r: bool)
        requires
            d > 0,
        ensures
            r == self.spec_below(n as int, d as int),
    {
        match self {
            Num::Micro(a) => {
                assert(-0x4000_0000_0000_0000_0000_0000_0000_0000 <= a * d
                    <= 0x4000_0000_0000_0000_0000_0000_0000_0000) by (nonlinear_arith)
                    requires
                        -0x8000_0000_0000_0000 <= a <= 0x8000_0000_0000_0000,
                        -0x8000_0000_0000_0000 <= d <= 0x8000_0000_0000_0000,
                ;
                let lhs: i128 = (a as i128) * (d as i128);
                let rhs: i128 = (n as i128) * 1_000_000;
                lhs < rhs
            },
            Num::Undefined => false,
        }
    }

    /// The whole part as a `u32`: zero of a negative or an undefined number,
    /// `u32::MAX` of one beyond it.
    #[verifier::when_used_as_spec(spec_trunc_u32)]
    pub fn trunc_u32(self) -> (r: u32)
        ensures
            r == self.spec_trunc_u32(),
    {
        match self {
            Num::Micro(a) => {
                if a < 0 {
                    0
                } else {
                    let w: i64 = a / SCALE;
                    if w > u32::MAX as i64 {
                        u32::MAX
                    } else {
                        w as u32
                    }
                }
            },
            Num::Undefined => 0,
        }
    }
}

/// A number times one is that number.
pub proof fn lemma_times_one(x: Num)
    ensures
        x.times(Num::one()) == x,
        Num::one().times(x) == x,
{
    if x.defined() {
        let m = x.micro();
        assert(SCALE * m == m * SCALE);
    }
}

/// A number other than zero, over itself, is one.
pub proof fn lemma_over_self(x: Num)
    requires
        x.defined(),
        x != Num::zero(),
    ensures
        x.over(x) == Num::one(),
{
    let m = x.micro();
    if m > 0 {
        vstd::arithmetic::div_mod::lemma_div_multiples_vanish(SCALE as int, m);
    } else {
        vstd::arithmetic::div_mod::lemma_div_multiples_vanish(SCALE as int, -m);
        assert(-(m * SCALE) == (-m) * (SCALE as int)) by (nonlinear_arith);
    }
}

/// The square root of one is one.
pub proof fn lemma_sqrt_one()
    ensures
        Num::one().sqrt() == Num::one(),
{
    assert(is_floor_sqrt(1_000_000, 1_000_000_000_000)) by (nonlinear_arith);
    lemma_floor_sqrt_unique(1_000_000, 1_000_000_000_000);
}

/// The fifth root of one is one.
pub proof fn lemma_root5_one()
    ensures
        Num::one().root5() == Num::one(),
{
    let r: int = 1_000_000;
    let n: int = 1_000_000_000_000_000_000_000_000_000_000;
    assert(r * r * r * r * r == n) by (nonlinear_arith)
        requires
            r == 1_000_000,
            n == 1_000_000_000_000_000_000_000_000_000_000,
    ;
    assert((r + 1) * (r + 1) * (r + 1) * (r + 1) * (r + 1) > n) by (nonlinear_arith)
        requires
            r == 1_000_000,
            n == 1_000_000_000_000_000_000_000_000_000_000,
    ;
    assert(Num::one().micro() * SCALE * SCALE * SCALE * SCALE == n) by (nonlinear_arith)
        requires
            Num::one().micro() == 1_000_000,
            SCALE == 1_000_000,
            n == 1_000_000_000_000_000_000_000_000_000_000,
    ;
    lemma_floor_root5_unique(r, n);
}

/// Every number that is not negative has a rounded-down square root.
pub proof fn lemma_floor_sqrt_is(n: int)
    requires
        n >= 0,
    ensures
        is_floor_sqrt(floor_sqrt(n), n),
    decreases n,
{
    if n == 0 {
        assert(is_floor_sqrt(0, 0));
    } else {
        lemma_floor_sqrt_is(n - 1);
        let r = floor_sqrt(n - 1);
        if (r + 1) * (r + 1) <= n {
            assert(is_floor_sqrt(r + 1, n)) by (nonlinear_arith)
                requires
                    0 <= r,
                    n - 1 < (r + 1) * (r + 1),
                    (r + 1) * (r + 1) <= n,
            ;
        } else {
            assert(is_floor_sqrt(r, n));
        }
    }
}

/// Every number that is not negative has a rounded-down fifth root.
pub proof fn lemma_floor_root5_is(n: int)
    requires
        n >= 0,
    ensures
        is_floor_root5(floor_root5(n), n),
    decreases n,
{
    if n == 0 {
        assert(is_floor_root5(0, 0));
    } else {
        lemma_floor_root5_is(n - 1);
        let r = floor_root5(n - 1);
        let up = (r + 1) * (r + 1) * (r + 1) * (r + 1) * (r + 1);
        if up <= n {
            lemma_fifth_power_grows(r + 1, r + 2);
            assert((r + 2) * (r + 2) * (r + 2) * (r + 2) * (r + 2) > up) by (nonlinear_arith)
                requires
                    0 <= r,
                    up == (r + 1) * (r + 1) * (r + 1) * (r + 1) * (r + 1),
            ;
            assert(is_floor_root5(r + 1, n));
        } else {
            assert(is_floor_root5(r, n));
        }
    }
}

/// Of two numbers that are not negative, the smaller has the smaller
/// quotient by a third above zero; and where the larger quotient is defined,
/// so is the smaller.
pub proof fn lemma_over_monotonic(a: Num, b: Num, c: Num)
    requires
        Num::zero().le(a),
        a.le(b),
        Num::zero().lt(c),
        b.over(c).defined(),
    ensures
        Num::zero().le(a.over(c)),
        a.over(c).le(b.over(c)),
{
    let (x, y, z) = (a.micro(), b.micro(), c.micro());
    vstd::arithmetic::div_mod::lemma_div_is_ordered(x * SCALE, y * SCALE, z);
    vstd::arithmetic::div_mod::lemma_div_is_ordered(0, x * SCALE, z);
}

impl Default for Num {
    /// Zero.
    fn default() -> (r: Num)
        ensures
            r == Num::zero(),
    {
        Num::Micro(0)
    }
}

} // verus!
