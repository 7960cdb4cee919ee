//! The simulation's general laws, proved once and for all inputs.
//!
//! Each public proof function states one property of the tick or of one of
//! its resolvers over the specification functions that the executable
//! contracts are written in.

use vstd::prelude::*;
use vstd::arithmetic::div_mod::lemma_basic_div;
use vstd::arithmetic::div_mod::lemma_div_by_self;
use vstd::arithmetic::div_mod::lemma_div_is_ordered;
use crate::rational::Ratio;
use crate::rational::lemma_norm_props;
use crate::rational::lemma_rat_add_congruence;
use crate::rational::lemma_rat_eq_le;
use crate::rational::lemma_rat_eq_trans;
use crate::rational::rat_add;
use crate::rational::rat_eq;
use crate::rational::rat_lt;
use crate::rational::rat_mul;
use crate::rational::rat_neg;
use crate::rational::rat_norm;
use crate::rational::rat_of_int;
use crate::rational::rat_wf;
use crate::rational::gcd;
use crate::geom::HitSide;
use crate::geom::RectModel;
use crate::geom::rat_abs;
use crate::geom::spec_overlaps;
use crate::geom::spec_side;
use crate::world::ConfigModel;
use crate::world::Contact;
use crate::world::CourtSide;
use crate::world::StateModel;
use crate::world::config_wf;
use crate::world::paddle_bound;
use crate::world::paddle_in_band;
use crate::world::state_wf;
use crate::step::spec_axis_offset_checked;
use crate::step::spec_ball_axis;
use crate::step::spec_bottom_wall;
use crate::step::spec_bounce;
use crate::step::spec_move_paddle;
use crate::step::spec_paddle_rect;
use crate::step::spec_reflect;
use crate::step::spec_resolve_reflect;
use crate::step::spec_tick;
use crate::step::spec_top_wall;
use crate::step::bounce_cos;
use crate::step::bounce_den;
use crate::step::bounce_sin;
use crate::step::bounce_index;

verus! {

/// The moved ball's checked offsets against one rectangle exist and show
/// no overlap: the ball clears the obstacle.
pub open spec fn spec_rect_clear(rect: RectModel, bx: Ratio, by: Ratio, radius: int) -> bool {
    match (spec_axis_offset_checked(bx, rect.x0, rect.x1),
           spec_axis_offset_checked(by, rect.y0, rect.y1)) {
        (Some(ox), Some(oy)) => !spec_overlaps(ox, oy, radius),
        _ => false,
    }
}

/// A zero-intent paddle step keeps the paddle's value where it was.
proof fn lemma_zero_intent_paddle(c: ConfigModel, y: Ratio)
    requires
        config_wf(c),
        rat_wf(y),
        paddle_in_band(c, y),
        spec_move_paddle(c, y, 0) is Some,
    ensures
        rat_eq(spec_move_paddle(c, y, 0).unwrap(), y),
{
    let dd = c.dt.d;
    let se = rat_mul(rat_of_int(0), c.dt);
    assert(se.n == 0 && se.d == dd);
    // the zero step reduces to 0/1, so the sum is `y` itself
    assert(0int % dd == 0 && 0int / dd == 0 && dd / dd == 1) by (nonlinear_arith)
        requires
            1 <= dd,
    ;
    reveal_with_fuel(gcd, 2);
    assert(gcd(0, dd) == gcd(dd, 0));
    assert(gcd(dd, 0) == dd);
    assert(rat_norm(se) == rat_of_int(0));
    let e = rat_add(y, rat_norm(se));
    assert(e.n == y.n && e.d == y.d);
    assert(e == y);
    lemma_norm_props(e);
    let yn = rat_norm(e);
    let b = paddle_bound(c);
    lemma_rat_eq_le(yn, y, rat_of_int(b));
    lemma_rat_eq_le(yn, y, rat_of_int(-b));
    assert(!rat_lt(yn, rat_of_int(-b)));
    assert(!rat_lt(rat_of_int(b), yn));
    assert(spec_move_paddle(c, y, 0).unwrap() == yn);
}

/// Free flight. For every state whose moved ball lies clear of both walls
/// and both paddles, a successful tick with zero intent on both paddles
/// reports no collision, leaves every velocity and both paddles at their
/// values, and moves the ball's position by exactly `velocity * dt`.
pub proof fn lemma_free_flight(c: ConfigModel, s: StateModel, s2: StateModel, evs: Seq<Contact>)
    requires
        config_wf(c),
        state_wf(c, s),
        spec_tick(c, s, 0, 0) == Some((s2, evs)),
        spec_rect_clear(
            spec_top_wall(c),
            spec_ball_axis(c, s.ball.x, s.ball.vx).unwrap(),
            spec_ball_axis(c, s.ball.y, s.ball.vy).unwrap(),
            c.ball_radius,
        ),
        spec_rect_clear(
            spec_bottom_wall(c),
            spec_ball_axis(c, s.ball.x, s.ball.vx).unwrap(),
            spec_ball_axis(c, s.ball.y, s.ball.vy).unwrap(),
            c.ball_radius,
        ),
        spec_rect_clear(
            spec_paddle_rect(c, CourtSide::Left, spec_move_paddle(c, s.left_y, 0).unwrap()).unwrap(),
            spec_ball_axis(c, s.ball.x, s.ball.vx).unwrap(),
            spec_ball_axis(c, s.ball.y, s.ball.vy).unwrap(),
            c.ball_radius,
        ),
        spec_rect_clear(
            spec_paddle_rect(c, CourtSide::Right, spec_move_paddle(c, s.right_y, 0).unwrap()).unwrap(),
            spec_ball_axis(c, s.ball.x, s.ball.vx).unwrap(),
            spec_ball_axis(c, s.ball.y, s.ball.vy).unwrap(),
            c.ball_radius,
        ),
    ensures
        evs =~= Seq::<Contact>::empty(),
        s2.ball.vx == s.ball.vx,
        s2.ball.vy == s.ball.vy,
        rat_eq(s2.ball.x, rat_add(s.ball.x, rat_mul(s.ball.vx, c.dt))),
        rat_eq(s2.ball.y, rat_add(s.ball.y, rat_mul(s.ball.vy, c.dt))),
        rat_eq(s2.left_y, s.left_y),
        rat_eq(s2.right_y, s.right_y),
{
    lemma_zero_intent_paddle(c, s.left_y);
    lemma_zero_intent_paddle(c, s.right_y);
    lemma_ball_axis_moves(c, s.ball.x, s.ball.vx);
    lemma_ball_axis_moves(c, s.ball.y, s.ball.vy);
}

/// A successful one-axis ball step advances the position's value by
/// exactly `velocity * dt`.
pub proof fn lemma_ball_axis_moves(c: ConfigModel, p: Ratio, v: Ratio)
    requires
        config_wf(c),
        rat_wf(p),
        rat_wf(v),
        spec_ball_axis(c, p, v) is Some,
    ensures
        rat_eq(spec_ball_axis(c, p, v).unwrap(), rat_add(p, rat_mul(v, c.dt))),
{
    let m = rat_mul(v, c.dt);
    assert(rat_wf(m)) by (nonlinear_arith)
        requires
            1 <= v.d,
            1 <= c.dt.d,
            m.d == v.d * c.dt.d,
    ;
    let mn = rat_norm(m);
    lemma_norm_props(m);
    let a = rat_add(p, mn);
    let e = rat_add(p, m);
    assert(rat_wf(a) && rat_wf(e)) by (nonlinear_arith)
        requires
            1 <= p.d,
            1 <= m.d,
            1 <= mn.d,
            a.d == p.d * mn.d,
            e.d == p.d * m.d,
    ;
    lemma_rat_add_congruence(p, mn, m);
    let an = rat_norm(a);
    lemma_norm_props(a);
    lemma_rat_eq_trans(an, a, e);
}

/// Wall reflection. For every struck side, the velocity component
/// orthogonal to the wall's surface is untouched; a component that points
/// into the obstacle comes out exactly negated, so its sign is opposite;
/// a component already pointing away is untouched too.
pub proof fn lemma_wall_reflection(vx: Ratio, vy: Ratio, side: HitSide)
    requires
        rat_wf(vx),
        rat_wf(vy),
    ensures
        (side == HitSide::Top || side == HitSide::Bottom) ==> spec_reflect(vx, vy, side).0 == vx,
        (side == HitSide::Left || side == HitSide::Right) ==> spec_reflect(vx, vy, side).1 == vy,
        side == HitSide::Top && rat_lt(vy, rat_of_int(0)) ==> spec_reflect(vx, vy, side).1
            == rat_neg(vy) && rat_lt(rat_of_int(0), spec_reflect(vx, vy, side).1),
        side == HitSide::Bottom && rat_lt(rat_of_int(0), vy) ==> spec_reflect(vx, vy, side).1
            == rat_neg(vy) && rat_lt(spec_reflect(vx, vy, side).1, rat_of_int(0)),
        side == HitSide::Right && rat_lt(vx, rat_of_int(0)) ==> spec_reflect(vx, vy, side).0
            == rat_neg(vx) && rat_lt(rat_of_int(0), spec_reflect(vx, vy, side).0),
        side == HitSide::Left && rat_lt(rat_of_int(0), vx) ==> spec_reflect(vx, vy, side).0
            == rat_neg(vx) && rat_lt(spec_reflect(vx, vy, side).0, rat_of_int(0)),
{
}

/// Whatever a reflection-model resolution reports, the velocity is
/// accounted for: a struck side changes it by exactly the reflection
/// response, and a clear rectangle leaves it untouched.
pub proof fn lemma_resolution_is_reflection(
    rect: RectModel,
    bx: Ratio,
    by: Ratio,
    vx: Ratio,
    vy: Ratio,
    radius: int,
)
    ensures
        ({
            match spec_resolve_reflect(rect, bx, by, vx, vy, radius) {
                Some(t) => match t.2 {
                    Some(side) => (t.0, t.1) == spec_reflect(vx, vy, side),
                    None => t.0 == vx && t.1 == vy,
                },
                None => true,
            }
        }),
{
}

/// Paddle bounce. For every configuration, hit position and paddle side,
/// the outgoing velocity of the bounce-angle model has squared magnitude
/// exactly the square of the configured ball speed, and points away from
/// the struck paddle's side of the court.
pub proof fn lemma_bounce_speed(c: ConfigModel, paddle_y: Ratio, ball_y: Ratio, side: CourtSide)
    requires
        config_wf(c),
        rat_wf(paddle_y),
        rat_wf(ball_y),
    ensures
        ({
            let v = spec_bounce(c, paddle_y, ball_y, side);
            rat_eq(
                rat_add(rat_mul(v.0, v.0), rat_mul(v.1, v.1)),
                rat_of_int(c.ball_speed * c.ball_speed),
            )
        }),
        side == CourtSide::Left ==> rat_lt(rat_of_int(0), spec_bounce(c, paddle_y, ball_y, side).0),
        side == CourtSide::Right ==> rat_lt(spec_bounce(c, paddle_y, ball_y, side).0, rat_of_int(0)),
{
    let k = bounce_index(paddle_y, ball_y, c.paddle_half_height);
    lemma_bounce_table(k);
    let dk = bounce_den(k);
    let ck = bounce_cos(k);
    let sk = bounce_sin(k);
    let v = spec_bounce(c, paddle_y, ball_y, side);
    let s = c.ball_speed;
    let sgn: int = if side == CourtSide::Left { 1int } else { -1int };
    assert(v.0.n == sgn * (s * ck) && v.0.d == dk && v.1.n == -(s * sk) && v.1.d == dk);
    assert(v.0.n * v.0.n == (s * s) * (ck * ck)) by (nonlinear_arith)
        requires
            v.0.n == sgn * (s * ck),
            sgn == 1 || sgn == -1,
    ;
    assert(v.1.n * v.1.n == (s * s) * (sk * sk)) by (nonlinear_arith)
        requires
            v.1.n == -(s * sk),
    ;
    assert((v.0.n * v.0.n) * (dk * dk) + (v.1.n * v.1.n) * (dk * dk)
        == (s * s) * ((dk * dk) * (dk * dk))) by (nonlinear_arith)
        requires
            v.0.n * v.0.n == (s * s) * (ck * ck),
            v.1.n * v.1.n == (s * s) * (sk * sk),
            ck * ck + sk * sk == dk * dk,
    ;
    assert(rat_eq(
        rat_add(rat_mul(v.0, v.0), rat_mul(v.1, v.1)),
        rat_of_int(s * s),
    ));
    assert(1 <= s * ck) by (nonlinear_arith)
        requires
            1 <= s,
            1 <= ck,
    ;
    assert(sgn * (s * ck) == if sgn == 1 { s * ck } else { -(s * ck) }) by (nonlinear_arith)
        requires
            sgn == 1 || sgn == -1,
    ;
}

/// The bounce table's directions lie exactly on the circle: for every
/// half-angle step, cosine and sine numerators square-sum to the square of
/// the denominator.
pub proof fn lemma_bounce_table(k: int)
    ensures
        bounce_cos(k) * bounce_cos(k) + bounce_sin(k) * bounce_sin(k)
            == bounce_den(k) * bounce_den(k),
        1 <= bounce_cos(k),
        1 <= bounce_den(k),
        -24 <= bounce_sin(k) <= 24,
{
    if k == 0 {
        assert(1int * 1 + 0int * 0 == 1int * 1);
    } else if k == 1 || k == -1 {
        assert(15int * 15 + 8int * 8 == 17int * 17);
        assert(15int * 15 + (-8int) * (-8) == 17int * 17);
    } else if k == 2 || k == -2 {
        assert(3int * 3 + 4int * 4 == 5int * 5);
        assert(3int * 3 + (-4int) * (-4) == 5int * 5);
    } else {
        assert(7int * 7 + 24int * 24 == 25int * 25);
        assert(7int * 7 + (-24int) * (-24) == 25int * 25);
    }
}

/// Paddle deflection matches the hit side. After an angle-model paddle
/// hit, the outgoing vertical velocity's sign is the sign of
/// `ball_y - paddle_y`: a ball striking below the paddle's centre leaves
/// downward, above leaves upward, and an exactly central hit leaves
/// horizontally at the full ball speed, away from the paddle.
pub proof fn lemma_bounce_deflects_toward_hit(
    c: ConfigModel,
    paddle_y: Ratio,
    ball_y: Ratio,
    side: CourtSide,
)
    requires
        config_wf(c),
        rat_wf(paddle_y),
        rat_wf(ball_y),
    ensures
        rat_lt(ball_y, paddle_y) ==> rat_lt(
            spec_bounce(c, paddle_y, ball_y, side).1,
            rat_of_int(0),
        ),
        rat_lt(paddle_y, ball_y) ==> rat_lt(
            rat_of_int(0),
            spec_bounce(c, paddle_y, ball_y, side).1,
        ),
        rat_eq(ball_y, paddle_y) ==> spec_bounce(c, paddle_y, ball_y, side).1 == rat_of_int(0)
            && spec_bounce(c, paddle_y, ball_y, side).0 == (Ratio {
            n: (if side == CourtSide::Left { 1int } else { -1int }) * c.ball_speed,
            d: 1,
        }),
{
    let num = 3 * (paddle_y.n * ball_y.d - ball_y.n * paddle_y.d);
    let den = paddle_y.d * ball_y.d * c.paddle_half_height;
    assert(1 <= den) by (nonlinear_arith)
        requires
            den == paddle_y.d * ball_y.d * c.paddle_half_height,
            1 <= paddle_y.d,
            1 <= ball_y.d,
            1 <= c.paddle_half_height,
    ;
    let k = bounce_index(paddle_y, ball_y, c.paddle_half_height);
    let sk = bounce_sin(k);
    let v = spec_bounce(c, paddle_y, ball_y, side);
    if num == 0 {
        lemma_basic_div(den - 1, den);
        assert(k == 0);
        assert(v.1 == rat_of_int(0));
        assert(v.0.n == (if side == CourtSide::Left { 1int } else { -1int }) * (c.ball_speed * 1));
    } else {
        let mag = if num < 0 { -num } else { num };
        let q = (mag + den - 1) / den;
        lemma_div_is_ordered(den, mag + den - 1, den);
        lemma_div_by_self(den);
        assert(1 <= q);
        assert(1 <= (if k < 0 { -k } else { k }) <= 3);
        assert(num > 0 ==> 1 <= k && 1 <= sk);
        assert(num < 0 ==> k <= -1 && sk <= -1);
        assert(num > 0 ==> v.1.n <= -1) by (nonlinear_arith)
            requires
                num > 0 ==> 1 <= sk,
                v.1.n == -(c.ball_speed * sk),
                1 <= c.ball_speed,
        ;
        assert(num < 0 ==> 1 <= v.1.n) by (nonlinear_arith)
            requires
                num < 0 ==> sk <= -1,
                v.1.n == -(c.ball_speed * sk),
                1 <= c.ball_speed,
        ;
    }
}

/// Side determination is symmetric. Whenever the horizontal axis
/// dominates the offset, a centre to the rectangle's right reports
/// `Right`, the mirrored centre reports `Left`, and mirroring the
/// horizontal offset always mirrors the reported side.
pub proof fn lemma_side_symmetry(ox: Ratio, oy: Ratio)
    requires
        rat_wf(ox),
        rat_wf(oy),
        rat_lt(rat_abs(oy), rat_abs(ox)),
    ensures
        rat_lt(rat_of_int(0), ox) ==> spec_side(ox, oy) == HitSide::Right
            && spec_side(rat_neg(ox), oy) == HitSide::Left,
        rat_lt(ox, rat_of_int(0)) ==> spec_side(ox, oy) == HitSide::Left
            && spec_side(rat_neg(ox), oy) == HitSide::Right,
{
    assert(rat_abs(rat_neg(ox)) == rat_abs(ox));
}

/// Paddle clamping. Whatever the intent and however often motion is
/// applied, a successful paddle step always lands inside the band
/// `[-(half_height - wall_thickness - paddle_half_height), +(same)]`.
pub proof fn lemma_paddle_clamped(c: ConfigModel, y: Ratio, intent: int)
    requires
        config_wf(c),
        rat_wf(y),
    ensures
        spec_move_paddle(c, y, intent) matches Some(y2) ==> paddle_in_band(c, y2),
{
    if spec_move_paddle(c, y, intent) is Some {
        let se = rat_mul(rat_of_int(intent * c.paddle_speed), c.dt);
        let e = rat_add(y, rat_norm(se));
        let yn = rat_norm(e);
        let b = paddle_bound(c);
        lemma_norm_props(se);
        assert(rat_wf(e)) by (nonlinear_arith)
            requires
                1 <= y.d,
                1 <= rat_norm(se).d,
                e.d == y.d * rat_norm(se).d,
        ;
        lemma_norm_props(e);
    }
}

} // verus!
