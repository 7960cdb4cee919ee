//! Exact rational scalars.
//!
//! The simulation keeps every coordinate, velocity component and time step as
//! a fraction of two machine integers. Arithmetic is exact: each operation
//! reduces its result by the greatest common divisor and then checks it
//! against fixed magnitude limits, returning `None` instead of ever rounding
//! or overflowing. The specification-level mirror of a fraction is `Ratio`,
//! a pair of unbounded integers.

use vstd::prelude::*;
use vstd::arithmetic::div_mod::lemma_fundamental_div_mod;
use vstd::arithmetic::div_mod::lemma_mod_self_0;
use vstd::arithmetic::div_mod::lemma_small_mod;
use vstd::arithmetic::div_mod::lemma_mod_multiples_basic;

verus! {

/// Largest magnitude a stored numerator may have.
pub const NUM_LIMIT: i64 = 2147483648;

/// Largest value a stored denominator may have.
pub const DEN_LIMIT: i64 = 1048576;

/// A rational number at the specification level: the value `n / d`.
pub struct Ratio {
    pub n: int,
    pub d: int,
}

/// A well-formed `Ratio` has a positive denominator.
pub open spec fn rat_wf(x: Ratio) -> bool {
    1 <= x.d
}

/// The integer `k` as a ratio.
pub open spec fn rat_of_int(k: int) -> Ratio {
    Ratio { n: k, d: 1 }
}

/// Two ratios denote the same rational value.
pub open spec fn rat_eq(a: Ratio, b: Ratio) -> bool {
    a.n * b.d == b.n * a.d
}

/// `a` denotes a strictly smaller value than `b` (denominators positive).
pub open spec fn rat_lt(a: Ratio, b: Ratio) -> bool {
    a.n * b.d < b.n * a.d
}

/// `a` denotes a value no greater than `b` (denominators positive).
pub open spec fn rat_le(a: Ratio, b: Ratio) -> bool {
    a.n * b.d <= b.n * a.d
}

/// Exact sum.
pub open spec fn rat_add(a: Ratio, b: Ratio) -> Ratio {
    Ratio { n: a.n * b.d + b.n * a.d, d: a.d * b.d }
}

/// Exact difference.
pub open spec fn rat_sub(a: Ratio, b: Ratio) -> Ratio {
    Ratio { n: a.n * b.d - b.n * a.d, d: a.d * b.d }
}

/// Exact product.
pub open spec fn rat_mul(a: Ratio, b: Ratio) -> Ratio {
    Ratio { n: a.n * b.n, d: a.d * b.d }
}

/// Exact negation.
pub open spec fn rat_neg(a: Ratio) -> Ratio {
    Ratio { n: -a.n, d: a.d }
}

/// `x` clamped to the closed interval `[lo, hi]`.
pub open spec fn rat_clamp(x: Ratio, lo: int, hi: int) -> Ratio {
    if rat_lt(x, rat_of_int(lo)) {
        rat_of_int(lo)
    } else if rat_lt(rat_of_int(hi), x) {
        rat_of_int(hi)
    } else {
        x
    }
}

/// Magnitude of an integer.
pub open spec fn abs_int(k: int) -> int {
    if k < 0 { -k } else { k }
}

/// Greatest common divisor by Euclid's recursion, for nonnegative arguments.
pub open spec fn gcd(a: int, b: int) -> int
    recommends
        0 <= a,
        0 <= b,
    decreases b when 0 <= b
{
    if b <= 0 {
        a
    } else {
        gcd(b, a % b)
    }
}

/// `x` reduced to lowest terms (assuming `rat_wf(x)`).
pub open spec fn rat_norm(x: Ratio) -> Ratio {
    let g = gcd(abs_int(x.n), x.d);
    Ratio {
        n: if x.n < 0 { -((-x.n) / g) } else { x.n / g },
        d: x.d / g,
    }
}

/// The reduced form of `x` fits the stored limits.
pub open spec fn rat_fits(x: Ratio) -> bool {
    let r = rat_norm(x);
    -(NUM_LIMIT as int) <= r.n && r.n <= NUM_LIMIT as int && r.d <= DEN_LIMIT as int
}

/// The greatest common divisor of nonnegative integers, not both zero, is
/// positive and divides both.
pub proof fn lemma_gcd_divides(a: int, b: int)
    requires
        0 <= a,
        0 <= b,
        0 < a + b,
    ensures
        1 <= gcd(a, b),
        a % gcd(a, b) == 0,
        b % gcd(a, b) == 0,
    decreases b,
{
    if b == 0 {
        assert(gcd(a, b) == a);
        lemma_mod_self_0(a);
        lemma_small_mod(0, a as nat);
    } else {
        lemma_gcd_divides(b, a % b);
        let g = gcd(b, a % b);
        assert(gcd(a, b) == g);
        lemma_fundamental_div_mod(a, b);
        lemma_fundamental_div_mod(b, g);
        lemma_fundamental_div_mod(a % b, g);
        let qb = b / g;
        let qr = (a % b) / g;
        assert(a == (qb * (a / b) + qr) * g) by (nonlinear_arith)
            requires
                a == b * (a / b) + a % b,
                b == g * qb + b % g,
                a % b == g * qr + (a % b) % g,
                b % g == 0,
                (a % b) % g == 0,
        ;
        lemma_mod_multiples_basic(qb * (a / b) + qr, g);
    }
}

/// Reduction keeps the denominator positive, keeps the value, and never
/// grows either component.
pub proof fn lemma_norm_props(x: Ratio)
    requires
        rat_wf(x),
    ensures
        rat_wf(rat_norm(x)),
        rat_eq(rat_norm(x), x),
        abs_int(rat_norm(x).n) <= abs_int(x.n),
        rat_norm(x).d <= x.d,
{
    let m = abs_int(x.n);
    lemma_gcd_divides(m, x.d);
    let g = gcd(m, x.d);
    lemma_fundamental_div_mod(m, g);
    lemma_fundamental_div_mod(x.d, g);
    let mq = m / g;
    let dq = x.d / g;
    assert(1 <= dq && dq <= x.d && 0 <= mq && mq <= m) by (nonlinear_arith)
        requires
            x.d == g * dq,
            m == g * mq,
            1 <= g,
            1 <= x.d,
            0 <= m,
    ;
    if x.n < 0 {
        assert(rat_norm(x).n * x.d == x.n * rat_norm(x).d) by (nonlinear_arith)
            requires
                rat_norm(x).n == -mq,
                rat_norm(x).d == dq,
                x.d == g * dq,
                -x.n == g * mq,
        ;
    } else {
        assert(rat_norm(x).n * x.d == x.n * rat_norm(x).d) by (nonlinear_arith)
            requires
                rat_norm(x).n == mq,
                rat_norm(x).d == dq,
                x.d == g * dq,
                x.n == g * mq,
        ;
    }
}

/// Value equality of ratios is transitive.
pub proof fn lemma_rat_eq_trans(a: Ratio, b: Ratio, c: Ratio)
    requires
        rat_wf(a),
        rat_wf(b),
        rat_wf(c),
        rat_eq(a, b),
        rat_eq(b, c),
    ensures
        rat_eq(a, c),
{
    assert(a.n * c.d == c.n * a.d) by (nonlinear_arith)
        requires
            a.n * b.d == b.n * a.d,
            b.n * c.d == c.n * b.d,
            1 <= b.d,
    ;
}

/// Replacing an addend by an equal-valued ratio keeps the sum's value.
#[verifier::rlimit(60)]
pub proof fn lemma_rat_add_congruence(a: Ratio, b: Ratio, c: Ratio)
    requires
        rat_wf(a),
        rat_wf(b),
        rat_wf(c),
        rat_eq(b, c),
    ensures
        rat_eq(rat_add(a, b), rat_add(a, c)),
{
    assert((a.n * b.d) * (a.d * c.d) == (a.n * c.d) * (a.d * b.d)) by (nonlinear_arith);
    assert((b.n * a.d) * (a.d * c.d) == (c.n * a.d) * (a.d * b.d)) by (nonlinear_arith)
        requires
            b.n * c.d == c.n * b.d,
    ;
    assert((a.n * b.d + b.n * a.d) * (a.d * c.d) == (a.n * c.d + c.n * a.d) * (a.d * b.d))
        by (nonlinear_arith)
        requires
            (a.n * b.d) * (a.d * c.d) == (a.n * c.d) * (a.d * b.d),
            (b.n * a.d) * (a.d * c.d) == (c.n * a.d) * (a.d * b.d),
    ;
}

/// Equal-valued ratios compare equally against a third value.
pub proof fn lemma_rat_eq_le(a: Ratio, b: Ratio, c: Ratio)
    requires
        rat_wf(a),
        rat_wf(b),
        rat_wf(c),
        rat_eq(a, b),
    ensures
        rat_le(a, c) == rat_le(b, c),
        rat_le(c, a) == rat_le(c, b),
        rat_lt(a, c) == rat_lt(b, c),
        rat_lt(c, a) == rat_lt(c, b),
{
    assert((a.n * c.d <= c.n * a.d) == (b.n * c.d <= c.n * b.d)
        && (c.n * a.d <= a.n * c.d) == (c.n * b.d <= b.n * c.d)
        && (a.n * c.d < c.n * a.d) == (b.n * c.d < c.n * b.d)
        && (c.n * a.d < a.n * c.d) == (c.n * b.d < b.n * c.d)) by (nonlinear_arith)
        requires
            a.n * b.d == b.n * a.d,
            1 <= a.d,
            1 <= b.d,
            1 <= c.d,
    ;
}

/// An exact rational scalar: the value `n / d`, kept within fixed limits.
#[derive(Clone, Copy, Debug, PartialEq, Eq, Structural)]
pub struct Frac {
    pub n: i64,
    pub d: i64,
}

impl View for Frac {
    type V = Ratio;

    open spec fn view(&self) -> Ratio {
        Ratio { n: self.n as int, d: self.d as int }
    }
}

fn gcd_exec(a: i128, b: i128) -> (r: i128)
    requires
        0 <= a,
        0 <= b,
    ensures
        r == gcd(a as int, b as int),
    decreases b,
{
    if b == 0 {
        a
    } else {
        gcd_exec(b, a % b)
    }
}

impl Frac {
    /// A stored fraction: positive denominator, both parts within limits.
    pub open spec fn wf(&self) -> bool {
        1 <= self.d && self.d <= DEN_LIMIT && -NUM_LIMIT <= self.n && self.n <= NUM_LIMIT
    }

    /// The integer `k` as a fraction.
    pub fn from_int(k: i64) -> (r: Frac)
        requires
            -NUM_LIMIT <= k <= NUM_LIMIT,
        ensures
            r.wf(),
            r@ == rat_of_int(k as int),
    {
        Frac { n: k, d: 1 }
    }

    /// Builds the reduced form of `n / d`, or `None` if it does not fit.
    pub fn new_reduced(n: i128, d: i128) -> (r: Option<Frac>)
        requires
            1 <= d,
            -170141183460469231731687303715884105727 <= n,
        ensures
            ({
                let x = Ratio { n: n as int, d: d as int };
                match r {
                    Some(q) => q.wf() && q@ == rat_norm(x) && rat_fits(x),
                    None => !rat_fits(x),
                }
            }),
    {
        let ghost x = Ratio { n: n as int, d: d as int };
        let m: i128 = if n < 0 { -n } else { n };
        let g: i128 = gcd_exec(m, d);
        proof {
            lemma_gcd_divides(m as int, d as int);
            lemma_fundamental_div_mod(m as int, g as int);
            lemma_fundamental_div_mod(d as int, g as int);
            assert(1 <= (d as int) / (g as int) && (d as int) / (g as int) <= d as int
                && 0 <= (m as int) / (g as int) && (m as int) / (g as int) <= m as int)
                by (nonlinear_arith)
                requires
                    d as int == (g as int) * ((d as int) / (g as int)),
                    m as int == (g as int) * ((m as int) / (g as int)),
                    1 <= g as int,
                    1 <= d as int,
                    0 <= m as int,
            ;
        }
        let mq: i128 = m / g;
        let dq: i128 = d / g;
        if mq <= NUM_LIMIT as i128 && dq <= DEN_LIMIT as i128 {
            let nn: i64 = if n < 0 {
                -(mq as i64)
            } else {
                mq as i64
            };
            Some(Frac { n: nn, d: dq as i64 })
        } else {
            None
        }
    }

    /// Exact sum, reduced; `None` if the sum does not fit.
    pub fn try_add(&self, other: &Frac) -> (r: Option<Frac>)
        requires
            self.wf(),
            other.wf(),
        ensures
            ({
                let e = rat_add(self@, other@);
                match r {
                    Some(q) => q.wf() && q@ == rat_norm(e) && rat_fits(e),
                    None => !rat_fits(e),
                }
            }),
    {
        proof {
            lemma_frac_products_bounded(self@, other@);
        }
        let n: i128 = (self.n as i128) * (other.d as i128) + (other.n as i128) * (self.d as i128);
        let d: i128 = (self.d as i128) * (other.d as i128);
        Frac::new_reduced(n, d)
    }

    /// Exact difference, reduced; `None` if it does not fit.
    pub fn try_sub(&self, other: &Frac) -> (r: Option<Frac>)
        requires
            self.wf(),
            other.wf(),
        ensures
            ({
                let e = rat_sub(self@, other@);
                match r {
                    Some(q) => q.wf() && q@ == rat_norm(e) && rat_fits(e),
                    None => !rat_fits(e),
                }
            }),
    {
        proof {
            lemma_frac_products_bounded(self@, other@);
        }
        let n: i128 = (self.n as i128) * (other.d as i128) - (other.n as i128) * (self.d as i128);
        let d: i128 = (self.d as i128) * (other.d as i128);
        Frac::new_reduced(n, d)
    }

    /// Exact product, reduced; `None` if it does not fit.
    pub fn try_mul(&self, other: &Frac) -> (r: Option<Frac>)
        requires
            self.wf(),
            other.wf(),
        ensures
            ({
                let e = rat_mul(self@, other@);
                match r {
                    Some(q) => q.wf() && q@ == rat_norm(e) && rat_fits(e),
                    None => !rat_fits(e),
                }
            }),
    {
        proof {
            lemma_frac_products_bounded(self@, other@);
        }
        let n: i128 = (self.n as i128) * (other.n as i128);
        let d: i128 = (self.d as i128) * (other.d as i128);
        Frac::new_reduced(n, d)
    }

    /// Exact negation; always fits.
    pub fn neg(&self) -> (r: Frac)
        requires
            self.wf(),
        ensures
            r.wf(),
            r@ == rat_neg(self@),
    {
        Frac { n: -self.n, d: self.d }
    }

    /// Strict value comparison.
    pub fn lt(&self, other: &Frac) -> (r: bool)
        requires
            self.wf(),
            other.wf(),
        ensures
            r == rat_lt(self@, other@),
    {
        proof {
            lemma_frac_products_bounded(self@, other@);
        }
        (self.n as i128) * (other.d as i128) < (other.n as i128) * (self.d as i128)
    }

    /// Non-strict value comparison.
    pub fn le(&self, other: &Frac) -> (r: bool)
        requires
            self.wf(),
            other.wf(),
        ensures
            r == rat_le(self@, other@),
    {
        proof {
            lemma_frac_products_bounded(self@, other@);
        }
        (self.n as i128) * (other.d as i128) <= (other.n as i128) * (self.d as i128)
    }

    /// Value equality with another fraction.
    pub fn eq_frac(&self, other: &Frac) -> (r: bool)
        requires
            self.wf(),
            other.wf(),
        ensures
            r == rat_eq(self@, other@),
    {
        proof {
            lemma_frac_products_bounded(self@, other@);
        }
        (self.n as i128) * (other.d as i128) == (other.n as i128) * (self.d as i128)
    }

    /// Value equality with an integer.
    pub fn eq_int(&self, k: i64) -> (r: bool)
        requires
            self.wf(),
            -NUM_LIMIT <= k <= NUM_LIMIT,
        ensures
            r == rat_eq(self@, rat_of_int(k as int)),
    {
        let other = Frac::from_int(k);
        self.eq_frac(&other)
    }

    /// True when the value is strictly negative.
    pub fn is_neg(&self) -> (r: bool)
        requires
            self.wf(),
        ensures
            r == rat_lt(self@, rat_of_int(0)),
    {
        self.n < 0
    }

    /// True when the value is strictly positive.
    pub fn is_pos(&self) -> (r: bool)
        requires
            self.wf(),
        ensures
            r == rat_lt(rat_of_int(0), self@),
    {
        self.n > 0
    }

    /// The value clamped to the closed interval `[lo, hi]`.
    pub fn clamp_int(&self, lo: i64, hi: i64) -> (r: Frac)
        requires
            self.wf(),
            -NUM_LIMIT <= lo,
            hi <= NUM_LIMIT,
            lo <= hi,
        ensures
            r.wf(),
            r@ == rat_clamp(self@, lo as int, hi as int),
    {
        let low = Frac::from_int(lo);
        let high = Frac::from_int(hi);
        if self.lt(&low) {
            low
        } else if high.lt(self) {
            high
        } else {
            *self
        }
    }
}

/// Cross products of two stored fractions stay far within the machine range.
pub proof fn lemma_frac_products_bounded(a: Ratio, b: Ratio)
    requires
        -NUM_LIMIT <= a.n && a.n <= NUM_LIMIT,
        -NUM_LIMIT <= b.n && b.n <= NUM_LIMIT,
        1 <= a.d && a.d <= DEN_LIMIT,
        1 <= b.d && b.d <= DEN_LIMIT,
    ensures
        abs_int(a.n * b.d) <= NUM_LIMIT * DEN_LIMIT,
        abs_int(b.n * a.d) <= NUM_LIMIT * DEN_LIMIT,
        abs_int(a.n * b.n) <= NUM_LIMIT * NUM_LIMIT,
        1 <= a.d * b.d <= DEN_LIMIT * DEN_LIMIT,
{
    assert(abs_int(a.n * b.d) <= NUM_LIMIT * DEN_LIMIT
        && abs_int(b.n * a.d) <= NUM_LIMIT * DEN_LIMIT
        && abs_int(a.n * b.n) <= NUM_LIMIT * NUM_LIMIT
        && 1 <= a.d * b.d <= DEN_LIMIT * DEN_LIMIT) by (nonlinear_arith)
        requires
            -NUM_LIMIT <= a.n && a.n <= NUM_LIMIT,
            -NUM_LIMIT <= b.n && b.n <= NUM_LIMIT,
            1 <= a.d && a.d <= DEN_LIMIT,
            1 <= b.d && b.d <= DEN_LIMIT,
    ;
}

} // verus!
