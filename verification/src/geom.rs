//! Circle-versus-rectangle geometry.
//!
//! Collision detection works on the offset from the rectangle's closest
//! point to the ball's centre: the ball overlaps the rectangle exactly when
//! that offset is strictly shorter than the radius (a tangent ball does not
//! collide), and the struck side follows from the offset's dominant axis,
//! ties resolving to the vertical pair.

use vstd::prelude::*;
use crate::rational::Frac;
use crate::rational::Ratio;
use crate::rational::abs_int;
use crate::rational::gcd;
use crate::rational::lemma_frac_products_bounded;
use crate::rational::rat_add;
use crate::rational::rat_fits;
use crate::rational::rat_lt;
use crate::rational::rat_mul;
use crate::rational::rat_norm;
use crate::rational::rat_of_int;
use crate::rational::rat_sub;
use crate::rational::DEN_LIMIT;
use crate::rational::NUM_LIMIT;

verus! {

/// The side of an obstacle that the ball struck.
#[derive(Clone, Copy, Debug, PartialEq, Eq, Structural)]
pub enum HitSide {
    Left,
    Right,
    Top,
    Bottom,
}

/// An axis-aligned rectangle at the specification level.
pub struct RectModel {
    pub x0: Ratio,
    pub x1: Ratio,
    pub y0: Ratio,
    pub y1: Ratio,
}

/// An axis-aligned rectangle with exact rational bounds.
#[derive(Clone, Copy, Debug)]
pub struct Rect {
    pub x0: Frac,
    pub x1: Frac,
    pub y0: Frac,
    pub y1: Frac,
}

impl View for Rect {
    type V = RectModel;

    open spec fn view(&self) -> RectModel {
        RectModel { x0: self.x0@, x1: self.x1@, y0: self.y0@, y1: self.y1@ }
    }
}

impl Rect {
    /// All four bounds are stored fractions.
    pub open spec fn wf(&self) -> bool {
        self.x0.wf() && self.x1.wf() && self.y0.wf() && self.y1.wf()
    }
}

/// Magnitude of a ratio.
pub open spec fn rat_abs(x: Ratio) -> Ratio {
    Ratio { n: abs_int(x.n), d: x.d }
}

/// Signed distance from the interval `[lo, hi]` to the coordinate `c`:
/// zero inside the interval, negative below it, positive above it.
/// This is one axis of `c` minus the closest rectangle point.
pub open spec fn spec_axis_offset(c: Ratio, lo: Ratio, hi: Ratio) -> Ratio {
    if rat_lt(c, lo) {
        rat_sub(c, lo)
    } else if rat_lt(hi, c) {
        rat_sub(c, hi)
    } else {
        rat_of_int(0)
    }
}

/// The circle of the given radius about the centre whose offset from the
/// closest rectangle point is `(ox, oy)` overlaps the rectangle: the offset
/// is strictly shorter than the radius. Tangency is no overlap.
pub open spec fn spec_overlaps(ox: Ratio, oy: Ratio, radius: int) -> bool {
    rat_lt(rat_add(rat_mul(ox, ox), rat_mul(oy, oy)), rat_of_int(radius * radius))
}

/// The struck side, from the offset of the ball's centre to the closest
/// rectangle point: the dominant axis wins, a tie goes to the vertical pair.
pub open spec fn spec_side(ox: Ratio, oy: Ratio) -> HitSide {
    if rat_lt(rat_abs(oy), rat_abs(ox)) {
        if rat_lt(rat_of_int(0), ox) {
            HitSide::Right
        } else {
            HitSide::Left
        }
    } else {
        if rat_lt(rat_of_int(0), oy) {
            HitSide::Top
        } else {
            HitSide::Bottom
        }
    }
}

/// One axis of the offset from the rectangle's closest point to the centre.
pub fn axis_offset(c: &Frac, lo: &Frac, hi: &Frac) -> (r: Option<Frac>)
    requires
        c.wf(),
        lo.wf(),
        hi.wf(),
    ensures
        ({
            let e = spec_axis_offset(c@, lo@, hi@);
            match r {
                Some(q) => q.wf() && q@ == rat_norm(e) && rat_fits(e),
                None => !rat_fits(e),
            }
        }),
{
    if c.lt(lo) {
        c.try_sub(lo)
    } else if hi.lt(c) {
        c.try_sub(hi)
    } else {
        proof {
            reveal_with_fuel(gcd, 3);
            assert(gcd(0, 1) == 1);
            assert(rat_norm(rat_of_int(0)).n == 0);
            assert(rat_norm(rat_of_int(0)).d == 1);
            assert(rat_norm(rat_of_int(0)) == rat_of_int(0));
        }
        Some(Frac::from_int(0))
    }
}

/// Whether an offset of `(ox, oy)` is strictly shorter than `radius`.
pub fn overlaps(ox: &Frac, oy: &Frac, radius: i64) -> (r: bool)
    requires
        ox.wf(),
        oy.wf(),
        1 <= radius <= 32767,
    ensures
        r == spec_overlaps(ox@, oy@, radius as int),
{
    proof {
        lemma_frac_products_bounded(ox@, oy@);
        assert(abs_int((radius as int) * ox@.d) <= 32767 * DEN_LIMIT
            && abs_int(((radius as int) * ox@.d) * oy@.d) <= 32767 * (DEN_LIMIT * DEN_LIMIT))
            by (nonlinear_arith)
            requires
                1 <= radius as int <= 32767,
                1 <= ox@.d <= DEN_LIMIT,
                1 <= oy@.d <= DEN_LIMIT,
        ;
    }
    let a: i128 = (ox.n as i128) * (oy.d as i128);
    let b: i128 = (oy.n as i128) * (ox.d as i128);
    let c: i128 = (radius as i128) * (ox.d as i128) * (oy.d as i128);
    proof {
        let ai = a as int;
        let bi = b as int;
        let ci = c as int;
        assert(ai * ai == (ox@.n * ox@.n) * (oy@.d * oy@.d)
            && bi * bi == (oy@.n * oy@.n) * (ox@.d * ox@.d)
            && ci * ci == ((radius as int) * (radius as int)) * ((ox@.d * ox@.d) * (oy@.d * oy@.d))
            && abs_int(ai) <= NUM_LIMIT * DEN_LIMIT
            && abs_int(bi) <= NUM_LIMIT * DEN_LIMIT
            && abs_int(ci) <= 32767 * (DEN_LIMIT * DEN_LIMIT)
            && 1 <= (ox@.d * oy@.d) <= DEN_LIMIT * DEN_LIMIT) by (nonlinear_arith)
            requires
                ai == ox@.n * oy@.d,
                bi == oy@.n * ox@.d,
                ci == (radius as int) * ox@.d * oy@.d,
                1 <= radius as int <= 32767,
                -NUM_LIMIT <= ox@.n <= NUM_LIMIT,
                -NUM_LIMIT <= oy@.n <= NUM_LIMIT,
                1 <= ox@.d <= DEN_LIMIT,
                1 <= oy@.d <= DEN_LIMIT,
        ;
        assert(ai * ai <= (NUM_LIMIT * DEN_LIMIT) * (NUM_LIMIT * DEN_LIMIT)
            && bi * bi <= (NUM_LIMIT * DEN_LIMIT) * (NUM_LIMIT * DEN_LIMIT)
            && 0 <= ai * ai && 0 <= bi * bi && 0 <= ci * ci
            && ci * ci <= (32767 * (DEN_LIMIT * DEN_LIMIT)) * (32767 * (DEN_LIMIT * DEN_LIMIT)))
            by (nonlinear_arith)
            requires
                abs_int(ai) <= NUM_LIMIT * DEN_LIMIT,
                abs_int(bi) <= NUM_LIMIT * DEN_LIMIT,
                abs_int(ci) <= 32767 * (DEN_LIMIT * DEN_LIMIT),
        ;
    }
    a * a + b * b < c * c
}

/// The struck side for the offset `(ox, oy)`.
pub fn side_of_offset(ox: &Frac, oy: &Frac) -> (r: HitSide)
    requires
        ox.wf(),
        oy.wf(),
    ensures
        r == spec_side(ox@, oy@),
{
    let ax: i64 = if ox.n < 0 { -ox.n } else { ox.n };
    let ay: i64 = if oy.n < 0 { -oy.n } else { oy.n };
    proof {
        lemma_frac_products_bounded(ox@, oy@);
        lemma_frac_products_bounded(Ratio { n: ax as int, d: ox@.d }, Ratio { n: ay as int, d: oy@.d });
    }
    if (ay as i128) * (ox.d as i128) < (ax as i128) * (oy.d as i128) {
        if ox.n > 0 {
            HitSide::Right
        } else {
            HitSide::Left
        }
    } else {
        if oy.n > 0 {
            HitSide::Top
        } else {
            HitSide::Bottom
        }
    }
}

} // verus!
