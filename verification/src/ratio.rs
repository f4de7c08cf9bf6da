//! Exact nonpositive rational values.
//!
//! A drawdown is a peak-to-trough decline expressed as a nonpositive fraction
//! of the peak. Carrying it as an exact rational (rather than a float) lets
//! every statistic in this crate have an exact arithmetic contract. A
//! [`Ratio`] always lies in `[-1, 0]` and its numerator magnitude and
//! denominator both fit in 64 bits, so cross-multiplied comparisons never
//! overflow 128-bit arithmetic.

use vstd::prelude::*;

verus! {

use vstd::arithmetic::div_mod::{
    lemma_fundamental_div_mod,
    lemma_mod_multiples_basic,
    lemma_div_is_ordered,
    lemma_div_is_ordered_by_denominator,
    lemma_div_pos_is_pos,
};
use vstd::arithmetic::mul::lemma_mul_upper_bound;

/// Greatest common divisor by Euclid's algorithm.
pub open spec fn gcd(a: nat, b: nat) -> nat
    decreases b,
{
    if b == 0 {
        a
    } else {
        gcd(b, a % b)
    }
}

/// If `g` divides `x` and `y`, it divides any combination `k*x + y`.
proof fn lemma_mod_zero_linear(g: int, x: int, y: int, k: int)
    requires
        g > 0,
        x % g == 0,
        y % g == 0,
    ensures
        (k * x + y) % g == 0,
{
    lemma_fundamental_div_mod(x, g);
    lemma_fundamental_div_mod(y, g);
    assert(k * x + y == (k * (x / g) + y / g) * g) by (nonlinear_arith)
        requires
            x == g * (x / g),
            y == g * (y / g),
    ;
    lemma_mod_multiples_basic(k * (x / g) + y / g, g);
}

/// A positive divisor of a positive value is no larger than the value.
proof fn lemma_divisor_le(g: int, x: int)
    requires
        g > 0,
        x > 0,
        x % g == 0,
    ensures
        g <= x,
{
    lemma_fundamental_div_mod(x, g);
    assert(g <= x) by (nonlinear_arith)
        requires
            g > 0,
            x > 0,
            x == g * (x / g),
    ;
}

/// The gcd is positive and divides both arguments whenever either is positive.
pub proof fn lemma_gcd_divides(a: nat, b: nat)
    ensures
        a > 0 || b > 0 ==> gcd(a, b) > 0,
        a > 0 || b > 0 ==> (a as int) % (gcd(a, b) as int) == 0,
        a > 0 || b > 0 ==> (b as int) % (gcd(a, b) as int) == 0,
        a > 0 ==> gcd(a, b) <= a,
        b > 0 ==> gcd(a, b) <= b,
    decreases b,
{
    if b == 0 {
        if a > 0 {
            assert((a as int) % (a as int) == 0) by {
                lemma_mod_multiples_basic(1, a as int);
            };
            assert(0int % (a as int) == 0) by {
                lemma_mod_multiples_basic(0, a as int);
            };
        }
    } else {
        lemma_gcd_divides(b, a % b);
        let g = gcd(b, a % b) as int;
        let ai = a as int;
        let bi = b as int;
        assert((a % b) as int == ai % bi);
        lemma_fundamental_div_mod(ai, bi);
        lemma_mod_zero_linear(g, bi, ai % bi, ai / bi);
        assert(ai == (ai / bi) * bi + ai % bi) by (nonlinear_arith)
            requires
                ai == bi * (ai / bi) + ai % bi,
        ;
        assert(ai % g == 0);
        lemma_divisor_le(g, bi);
        if a > 0 {
            lemma_divisor_le(g, ai);
        }
    }
}

/// Euclid's algorithm, executable form.
pub fn gcd_u128(a: u128, b: u128) -> (r: u128)
    ensures
        r as nat == gcd(a as nat, b as nat),
    decreases b,
{
    if b == 0 {
        a
    } else {
        gcd_u128(b, a % b)
    }
}

/// An exact rational in `[-1, 0]`: a nonpositive numerator over a positive
/// denominator, both of 64-bit magnitude. Drawdown values and their running
/// means are carried as `Ratio`s.
#[derive(Clone, Copy, PartialEq, Eq, Structural, Debug)]
pub struct Ratio {
    /// Numerator; always in `[-den, 0]`.
    pub num: i128,
    /// Denominator; always in `[1, u64::MAX]`.
    pub den: u128,
}

impl Ratio {
    /// Well-formedness: value in `[-1, 0]`, 64-bit magnitudes.
    pub open spec fn inv(self) -> bool {
        &&& 1 <= self.den as int <= u64::MAX as int
        &&& -(self.den as int) <= self.num as int <= 0
    }

    /// The canonical zero value.
    pub open spec fn spec_zero() -> Ratio {
        Ratio { num: 0, den: 1 }
    }

    /// The reduced form of the fraction `n / d`, for `-d <= n <= 0 < d`.
    pub open spec fn from_frac(n: int, d: int) -> Ratio {
        let g = gcd((-n) as nat, d as nat) as int;
        Ratio { num: (-((-n) / g)) as i128, den: (d / g) as u128 }
    }

    /// `|a| > |b|`, by cross-multiplication.
    pub open spec fn abs_gt(a: Ratio, b: Ratio) -> bool {
        (-a.num) * b.den > (-b.num) * a.den
    }

    pub fn zero() -> (r: Ratio)
        ensures
            r == Ratio::spec_zero(),
            r.inv(),
    {
        Ratio { num: 0, den: 1 }
    }

    /// Builds the reduced rational `num / den`.
    pub fn new(num: i128, den: u128) -> (r: Ratio)
        requires
            1 <= den as int <= u64::MAX as int,
            -(den as int) <= num as int <= 0,
        ensures
            r == Ratio::from_frac(num as int, den as int),
            r.inv(),
            r.num * (den as int) == num * (r.den as int),
    {
        proof {
            Self::lemma_from_frac(num as int, den as int);
        }
        let m: u128 = (-num) as u128;
        let g: u128 = gcd_u128(m, den);
        Ratio { num: -((m / g) as i128), den: den / g }
    }

    /// The denominator of `from_frac(n, d)`, before the final cast.
    pub open spec fn reduced_den(n: int, d: int) -> int {
        d / (gcd((-n) as nat, d as nat) as int)
    }

    /// For `-d <= n <= 0 < d`, if the reduced denominator is of 64-bit
    /// magnitude the reduced fraction is well formed and denotes exactly
    /// `n / d`.
    pub proof fn lemma_from_frac_wide(n: int, d: int)
        requires
            1 <= d,
            -d <= n <= 0,
            Self::reduced_den(n, d) <= u64::MAX as int,
        ensures
            ({
                let r = Self::from_frac(n, d);
                let g = gcd((-n) as nat, d as nat) as int;
                &&& r.inv()
                &&& r.num as int == -((-n) / g)
                &&& r.den as int == Self::reduced_den(n, d)
                &&& r.num * d == n * (r.den as int)
                &&& g >= 1
            }),
    {
        let m = -n;
        let g = gcd(m as nat, d as nat) as int;
        lemma_gcd_divides(m as nat, d as nat);
        assert(m % g == 0 && d % g == 0) by {
            assert((m as nat) as int == m);
        };
        lemma_fundamental_div_mod(m, g);
        lemma_fundamental_div_mod(d, g);
        lemma_div_pos_is_pos(m, g);
        lemma_div_is_ordered(m, d, g);
        assert(d / g >= 1) by {
            if d / g <= 0 {
                assert(d <= g * 0) by (nonlinear_arith)
                    requires
                        d == g * (d / g),
                        d / g <= 0,
                        g > 0,
                ;
            }
        };
        assert((-(m / g)) * d == n * (d / g)) by (nonlinear_arith)
            requires
                m == g * (m / g),
                d == g * (d / g),
                n == -m,
        ;
    }

    /// For `-d <= n <= 0 < d <= u64::MAX`, the reduced fraction is well
    /// formed and denotes exactly `n / d`.
    pub proof fn lemma_from_frac(n: int, d: int)
        requires
            1 <= d <= u64::MAX as int,
            -d <= n <= 0,
        ensures
            ({
                let r = Self::from_frac(n, d);
                &&& r.inv()
                &&& r.den as int <= d
                &&& r.num * d == n * (r.den as int)
                &&& gcd((-n) as nat, d as nat) >= 1
            }),
    {
        let m = -n;
        let g = gcd(m as nat, d as nat) as int;
        lemma_gcd_divides(m as nat, d as nat);
        lemma_div_is_ordered_by_denominator(d, 1, g);
        assert(d / 1 == d);
        Self::lemma_from_frac_wide(n, d);
    }

    /// Decides `|self| > |other|` by cross-multiplication.
    pub fn abs_greater(&self, other: &Ratio) -> (r: bool)
        requires
            self.inv(),
            other.inv(),
        ensures
            r == Ratio::abs_gt(*self, *other),
    {
        proof {
            lemma_mul_upper_bound(
                -(self.num as int),
                u64::MAX as int,
                other.den as int,
                u64::MAX as int,
            );
            lemma_mul_upper_bound(
                -(other.num as int),
                u64::MAX as int,
                self.den as int,
                u64::MAX as int,
            );
        }
        let lhs: u128 = ((-self.num) as u128) * other.den;
        let rhs: u128 = ((-other.num) as u128) * self.den;
        lhs > rhs
    }

    /// Numerator of one step of Welford's online mean over exact rationals:
    /// `mean' = mean + (x - mean) / n`, i.e. `mean' = (mean*(n-1) + x) / n`.
    pub open spec fn welford_num(m: Ratio, x: Ratio, n: int) -> int {
        m.num * (n - 1) * x.den + x.num * m.den
    }

    /// Denominator of one step of Welford's online mean over exact rationals.
    pub open spec fn welford_den(m: Ratio, x: Ratio, n: int) -> int {
        m.den * x.den * n
    }

    /// The exact updated mean after one Welford step, in reduced form.
    pub open spec fn welford_step(m: Ratio, x: Ratio, n: int) -> Ratio {
        Ratio::from_frac(Self::welford_num(m, x, n), Self::welford_den(m, x, n))
    }

    /// The machine-limit side condition of one Welford step: the common
    /// denominator fits in 128 bits and the reduced mean keeps a 64-bit
    /// denominator. Every other intermediate is bounded by the common
    /// denominator.
    pub open spec fn welford_fits(m: Ratio, x: Ratio, n: int) -> bool {
        &&& Self::welford_den(m, x, n) <= u128::MAX as int
        &&& Self::reduced_den(Self::welford_num(m, x, n), Self::welford_den(m, x, n))
            <= u64::MAX as int
    }

    /// A Welford step keeps the exact mean inside `[-1, 0]`.
    pub proof fn lemma_welford_range(m: Ratio, x: Ratio, n: int)
        requires
            m.inv(),
            x.inv(),
            n >= 1,
        ensures
            -Self::welford_den(m, x, n) <= Self::welford_num(m, x, n) <= 0,
            Self::welford_den(m, x, n) >= 1,
    {
        let a = m.num as int;
        let b = m.den as int;
        let c = x.num as int;
        let d = x.den as int;
        assert(-(b * d * n) <= a * (n - 1) * d + c * b <= 0 && b * d * n >= 1)
            by (nonlinear_arith)
            requires
                -b <= a <= 0,
                -d <= c <= 0,
                1 <= b,
                1 <= d,
                1 <= n,
        ;
    }

    /// One step of Welford's online mean over exact rationals, in reduced
    /// form. Returns `None` exactly when a 128-bit intermediate or the
    /// reduced denominator would overflow.
    pub fn welford_mean(m: &Ratio, x: &Ratio, n: u64) -> (r: Option<Ratio>)
        requires
            m.inv(),
            x.inv(),
            n >= 1,
        ensures
            r is Some <==> Self::welford_fits(*m, *x, n as int),
            r is Some ==> r->Some_0 == Self::welford_step(*m, *x, n as int)
                && r->Some_0.inv(),
    {
        proof {
            Self::lemma_welford_range(*m, *x, n as int);
            lemma_mul_upper_bound(m.den as int, u64::MAX as int, x.den as int, u64::MAX as int);
        }
        let d1: u128 = m.den * x.den;
        let den_t: u128 = match d1.checked_mul(n as u128) {
            Some(v) => v,
            None => {
                return None;
            },
        };
        let ghost wn = Self::welford_num(*m, *x, n as int);
        proof {
            let a = m.num as int;
            let b = m.den as int;
            let c = x.num as int;
            let d = x.den as int;
            let k = n as int;
            assert((-a) * (k - 1) <= b * d * k
                && (-a) * (k - 1) * d <= b * d * k
                && (-c) * b <= b * d * k
                && (-a) * (k - 1) * d + (-c) * b == -(a * (k - 1) * d + c * b))
                by (nonlinear_arith)
                requires
                    -b <= a <= 0,
                    -d <= c <= 0,
                    1 <= b,
                    1 <= d,
                    1 <= k,
            ;
            lemma_gcd_divides((-wn) as nat, den_t as nat);
        }
        let ma: u128 = (-m.num) as u128;
        let xa: u128 = (-x.num) as u128;
        let t1: u128 = ma * ((n - 1) as u128);
        let t2: u128 = t1 * x.den;
        let t3: u128 = xa * m.den;
        let num_m: u128 = t2 + t3;
        let g: u128 = gcd_u128(num_m, den_t);
        let rd: u128 = den_t / g;
        if rd > u64::MAX as u128 {
            return None;
        }
        proof {
            Self::lemma_from_frac_wide(wn, den_t as int);
        }
        Some(Ratio { num: -((num_m / g) as i128), den: rd })
    }

    /// One Welford step over exact rationals preserves the arithmetic mean:
    /// if `m` denotes `sn / (sd * (n-1))` — the exact mean of the first
    /// `n-1` values, whose fraction sum is `sn / sd` — then the step result
    /// denotes `(sn*x.den + x.num*sd) / ((sd*x.den) * n)`, the exact mean of
    /// all `n` values.
    pub proof fn lemma_welford_step_mean(m: Ratio, x: Ratio, n: int, sn: int, sd: int)
        requires
            m.inv(),
            x.inv(),
            n >= 1,
            1 <= sd,
            Self::welford_fits(m, x, n),
            m.num * (sd * (n - 1)) == sn * m.den,
        ensures
            ({
                let s = Self::welford_step(m, x, n);
                &&& s.inv()
                &&& s.num * ((sd * x.den) * n) == (sn * x.den + x.num * sd) * s.den
            }),
    {
        Self::lemma_welford_range(m, x, n);
        let wn = Self::welford_num(m, x, n);
        let wd = Self::welford_den(m, x, n);
        Self::lemma_from_frac_wide(wn, wd);
        let s = Self::welford_step(m, x, n);
        let a = m.num as int;
        let b = m.den as int;
        let c = x.num as int;
        let d = x.den as int;
        // The previous-mean term, rearranged so the hypothesis applies.
        assert(a * (n - 1) * d * ((sd * d) * n) == (a * (sd * (n - 1))) * (d * d * n))
            by (nonlinear_arith);
        // The new-value term.
        assert(c * b * ((sd * d) * n) == (c * sd) * (b * d * n)) by (nonlinear_arith);
        // The sum side, split the same way.
        assert((sn * d) * (b * d * n) == (sn * b) * (d * d * n)) by (nonlinear_arith);
        assert((a * (sd * (n - 1))) * (d * d * n) == (sn * b) * (d * d * n));
        assert((a * (n - 1) * d + c * b) * ((sd * d) * n) == a * (n - 1) * d * ((sd * d) * n)
            + c * b * ((sd * d) * n)) by (nonlinear_arith);
        assert((sn * d + c * sd) * (b * d * n) == (sn * d) * (b * d * n) + (c * sd) * (b * d * n))
            by (nonlinear_arith);
        assert(wn * ((sd * d) * n) == (sn * d + c * sd) * wd);
        assert(s.num * ((sd * x.den) * n) == (sn * x.den + x.num * sd) * s.den)
            by (nonlinear_arith)
            requires
                s.num * wd == wn * (s.den as int),
                wn * ((sd * x.den) * n) == (sn * x.den + x.num * sd) * wd,
                wd >= 1,
        ;
    }
}

} // verus!
