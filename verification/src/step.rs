//! One fixed-timestep tick: input mapping, paddle motion, ball motion and
//! collision resolution, in that order.
//!
//! The whole tick is mirrored by the specification function [`spec_tick`],
//! which the executable driver follows branch for branch. A tick either
//! matches `spec_tick` exactly or, when an exact intermediate value would
//! not fit the fraction type, reports `None` and leaves the world
//! untouched.
//!
//! The paddle-relative bounce replaces the continuous angle model — a
//! deflection of up to 75 degrees whose cosine and sine no exact
//! implementation can represent — by exact rational points of the same
//! shape on the unit circle: the vertical hit offset picks one of seven
//! tangent half-angle steps `k/4` for `k` in `-3 ..= 3`, giving the
//! directions `(1, 0)`, `±(15, 8)/17`, `±(3, 4)/5` and `±(7, 24)/25`, a
//! largest deflection of about 74 degrees standing for the 75 degree cap.
//! The step magnitude rounds up, so a dead-centre hit alone leaves
//! horizontally and every off-centre hit deflects toward the side it
//! struck; the hit offset is clamped to the paddle's vertical extent, so a
//! glancing corner hit cannot deflect beyond the cap; outgoing speed is
//! exactly the configured ball speed either way.

use vstd::prelude::*;
use vstd::arithmetic::div_mod::lemma_div_pos_is_pos;
use crate::rational::Frac;
use crate::rational::Ratio;
use crate::rational::lemma_frac_products_bounded;
use crate::rational::rat_add;
use crate::rational::rat_clamp;
use crate::rational::rat_fits;
use crate::rational::rat_lt;
use crate::rational::rat_mul;
use crate::rational::rat_neg;
use crate::rational::rat_norm;
use crate::rational::rat_of_int;
use crate::rational::rat_sub;
use crate::geom::HitSide;
use crate::geom::Rect;
use crate::geom::RectModel;
use crate::geom::axis_offset;
use crate::geom::overlaps;
use crate::geom::side_of_offset;
use crate::geom::spec_axis_offset;
use crate::geom::spec_overlaps;
use crate::geom::spec_side;
use crate::world::Ball;
use crate::world::Config;
use crate::world::ConfigModel;
use crate::world::Contact;
use crate::world::CourtSide;
use crate::world::Obstacle;
use crate::world::Paddle;
use crate::world::PaddleResponse;
use crate::world::StateModel;
use crate::world::World;
use crate::world::config_wf;
use crate::world::paddle_bound;
use crate::world::paddle_centre_x;
use crate::world::paddle_in_band;

verus! {

/// The per-paddle intent for one tick: up contributes `+1`, down `-1`,
/// both cancel to `0`.
pub open spec fn intent_of(up: bool, down: bool) -> int {
    (if up { 1int } else { 0int }) - (if down { 1int } else { 0int })
}

/// Maps a paddle's pair of held keys to its directional intent.
pub fn paddle_intent(up: bool, down: bool) -> (r: i64)
    ensures
        r == intent_of(up, down),
        -1 <= r <= 1,
{
    let u: i64 = if up { 1 } else { 0 };
    let d: i64 = if down { 1 } else { 0 };
    u - d
}

/// One paddle's vertical motion: integrate the intent at the paddle speed
/// over the time step, then clamp to the court band.
pub open spec fn spec_move_paddle(c: ConfigModel, y: Ratio, intent: int) -> Option<Ratio> {
    let se = rat_mul(rat_of_int(intent * c.paddle_speed), c.dt);
    if !rat_fits(se) {
        None
    } else {
        let e = rat_add(y, rat_norm(se));
        if !rat_fits(e) {
            None
        } else {
            Some(rat_clamp(rat_norm(e), -paddle_bound(c), paddle_bound(c)))
        }
    }
}

/// Integrates and clamps one paddle. Clamping happens after integration,
/// so a paddle held against a bound accumulates no out-of-band state.
pub fn move_paddle(cfg: &Config, y: &Frac, intent: i64) -> (r: Option<Frac>)
    requires
        config_wf(cfg@),
        y.wf(),
        -1 <= intent <= 1,
    ensures
        ({
            let s = spec_move_paddle(cfg@, y@, intent as int);
            match r {
                Some(q) => q.wf() && s == Some(q@) && paddle_in_band(cfg@, q@),
                None => s is None,
            }
        }),
{
    proof {
        assert(-32767 <= (intent as int) * cfg@.paddle_speed
            && (intent as int) * cfg@.paddle_speed <= 32767) by (nonlinear_arith)
            requires
                -1 <= intent as int <= 1,
                1 <= cfg@.paddle_speed <= 32767,
        ;
    }
    let rate = Frac::from_int(intent * cfg.paddle_speed);
    let se = match rate.try_mul(&cfg.dt) {
        Some(v) => v,
        None => {
            return None;
        },
    };
    let e = match y.try_add(&se) {
        Some(v) => v,
        None => {
            return None;
        },
    };
    let bound = cfg.half_height - cfg.wall_thickness - cfg.paddle_half_height;
    Some(e.clamp_int(-bound, bound))
}

/// One axis of ball motion: the position advanced by `velocity * dt`.
pub open spec fn spec_ball_axis(c: ConfigModel, p: Ratio, v: Ratio) -> Option<Ratio> {
    let se = rat_mul(v, c.dt);
    if !rat_fits(se) {
        None
    } else {
        let e = rat_add(p, rat_norm(se));
        if !rat_fits(e) {
            None
        } else {
            Some(rat_norm(e))
        }
    }
}

/// Advances one axis of the ball's position.
pub fn ball_axis(cfg: &Config, p: &Frac, v: &Frac) -> (r: Option<Frac>)
    requires
        config_wf(cfg@),
        p.wf(),
        v.wf(),
    ensures
        ({
            let s = spec_ball_axis(cfg@, p@, v@);
            match r {
                Some(q) => q.wf() && s == Some(q@),
                None => s is None,
            }
        }),
{
    let se = match v.try_mul(&cfg.dt) {
        Some(x) => x,
        None => {
            return None;
        },
    };
    match p.try_add(&se) {
        Some(x) => Some(x),
        None => None,
    }
}

/// The reflection response: negate the velocity component orthogonal to
/// the struck side, and only when it currently points into the obstacle.
pub open spec fn spec_reflect(vx: Ratio, vy: Ratio, side: HitSide) -> (Ratio, Ratio) {
    match side {
        HitSide::Left => if rat_lt(rat_of_int(0), vx) { (rat_neg(vx), vy) } else { (vx, vy) },
        HitSide::Right => if rat_lt(vx, rat_of_int(0)) { (rat_neg(vx), vy) } else { (vx, vy) },
        HitSide::Top => if rat_lt(vy, rat_of_int(0)) { (vx, rat_neg(vy)) } else { (vx, vy) },
        HitSide::Bottom => if rat_lt(rat_of_int(0), vy) { (vx, rat_neg(vy)) } else { (vx, vy) },
    }
}

/// Applies the reflection response for a struck side.
pub fn reflect_velocity(vx: &Frac, vy: &Frac, side: HitSide) -> (r: (Frac, Frac))
    requires
        vx.wf(),
        vy.wf(),
    ensures
        r.0.wf(),
        r.1.wf(),
        (r.0@, r.1@) == spec_reflect(vx@, vy@, side),
{
    match side {
        HitSide::Left => if vx.is_pos() { (vx.neg(), *vy) } else { (*vx, *vy) },
        HitSide::Right => if vx.is_neg() { (vx.neg(), *vy) } else { (*vx, *vy) },
        HitSide::Top => if vy.is_neg() { (*vx, vy.neg()) } else { (*vx, *vy) },
        HitSide::Bottom => if vy.is_pos() { (*vx, vy.neg()) } else { (*vx, *vy) },
    }
}

/// Denominator of the bounce direction for half-angle step `k`.
pub open spec fn bounce_den(k: int) -> int {
    if k == 0 { 1 } else if k == 1 || k == -1 { 17 } else if k == 2 || k == -2 { 5 } else { 25 }
}

/// Horizontal numerator (the cosine part) of the bounce direction.
pub open spec fn bounce_cos(k: int) -> int {
    if k == 0 { 1 } else if k == 1 || k == -1 { 15 } else if k == 2 || k == -2 { 3 } else { 7 }
}

/// Signed vertical numerator (the sine part) of the bounce direction.
pub open spec fn bounce_sin(k: int) -> int {
    if k == 0 {
        0
    } else if k == 1 {
        8
    } else if k == -1 {
        -8
    } else if k == 2 {
        4
    } else if k == -2 {
        -4
    } else if k == 3 {
        24
    } else {
        -24
    }
}

/// The half-angle step picked by the vertical hit offset: three times the
/// paddle-relative intersection `(paddle_y - ball_y) / paddle_half_height`,
/// its magnitude rounded up to the next integer and clamped to `[-3, 3]`.
/// Rounding up leaves step zero to the exactly central hit alone, so every
/// off-centre hit deflects toward its side; the clamp realises the
/// maximum-bounce cap.
pub open spec fn bounce_index(paddle_y: Ratio, ball_y: Ratio, phh: int) -> int {
    let num = 3 * (paddle_y.n * ball_y.d - ball_y.n * paddle_y.d);
    let den = paddle_y.d * ball_y.d * phh;
    let mag = if num < 0 { -num } else { num };
    let q = (mag + den - 1) / den;
    let qc = if q > 3 { 3 } else { q };
    if num < 0 { -qc } else { qc }
}

/// The bounce-angle response: the outgoing velocity is the ball speed
/// along the table direction for the hit's half-angle step, pointing away
/// from the struck paddle's side of the court; the vertical part opposes
/// the hit offset. The incoming velocity is discarded entirely.
pub open spec fn spec_bounce(c: ConfigModel, paddle_y: Ratio, ball_y: Ratio, side: CourtSide)
    -> (Ratio, Ratio) {
    let k = bounce_index(paddle_y, ball_y, c.paddle_half_height);
    let sgn: int = if side == CourtSide::Left { 1int } else { -1int };
    (Ratio { n: sgn * (c.ball_speed * bounce_cos(k)), d: bounce_den(k) },
     Ratio { n: -(c.ball_speed * bounce_sin(k)), d: bounce_den(k) })
}

/// Computes the bounce-angle response for a ball striking a paddle.
pub fn paddle_bounce(cfg: &Config, paddle_y: &Frac, ball_y: &Frac, side: CourtSide)
    -> (r: (Frac, Frac))
    requires
        config_wf(cfg@),
        paddle_y.wf(),
        ball_y.wf(),
    ensures
        r.0.wf(),
        r.1.wf(),
        (r.0@, r.1@) == spec_bounce(cfg@, paddle_y@, ball_y@, side),
{
    proof {
        lemma_frac_products_bounded(paddle_y@, ball_y@);
    }
    let num: i128 = 3 * ((paddle_y.n as i128) * (ball_y.d as i128)
        - (ball_y.n as i128) * (paddle_y.d as i128));
    proof {
        assert(1 <= (paddle_y@.d * ball_y@.d) * cfg@.paddle_half_height
            && (paddle_y@.d * ball_y@.d) * cfg@.paddle_half_height
                <= (crate::rational::DEN_LIMIT * crate::rational::DEN_LIMIT) * 32767)
            by (nonlinear_arith)
            requires
                1 <= paddle_y@.d * ball_y@.d
                    <= crate::rational::DEN_LIMIT * crate::rational::DEN_LIMIT,
                1 <= cfg@.paddle_half_height <= 32767,
        ;
    }
    let den: i128 = (paddle_y.d as i128) * (ball_y.d as i128) * (cfg.paddle_half_height as i128);
    let mag: i128 = if num < 0 { -num } else { num };
    proof {
        lemma_div_pos_is_pos(mag as int + den as int - 1, den as int);
    }
    let q: i128 = (mag + den - 1) / den;
    let qc: i64 = if q > 3 { 3 } else { q as i64 };
    let k: i64 = if num < 0 { -qc } else { qc };
    let dk: i64 = if k == 0 { 1 } else if k == 1 || k == -1 { 17 }
        else if k == 2 || k == -2 { 5 } else { 25 };
    let ck: i64 = if k == 0 { 1 } else if k == 1 || k == -1 { 15 }
        else if k == 2 || k == -2 { 3 } else { 7 };
    let sk: i64 = if k == 0 { 0 } else if k == 1 { 8 } else if k == -1 { -8 }
        else if k == 2 { 4 } else if k == -2 { -4 } else if k == 3 { 24 } else { -24 };
    let sgn: i64 = match side {
        CourtSide::Left => 1,
        CourtSide::Right => -1,
    };
    proof {
        assert(-786408 <= cfg@.ball_speed * (ck as int) && cfg@.ball_speed * (ck as int) <= 786408
            && -786408 <= cfg@.ball_speed * (sk as int) && cfg@.ball_speed * (sk as int) <= 786408
            && -786408 <= (sgn as int) * (cfg@.ball_speed * (ck as int))
            && (sgn as int) * (cfg@.ball_speed * (ck as int)) <= 786408) by (nonlinear_arith)
            requires
                1 <= cfg@.ball_speed <= 32767,
                -24 <= ck as int <= 24,
                -24 <= sk as int <= 24,
                sgn as int == 1 || sgn as int == -1,
        ;
    }
    (Frac { n: sgn * (cfg.ball_speed * ck), d: dk }, Frac { n: -(cfg.ball_speed * sk), d: dk })
}

/// One axis offset with the overflow check folded in.
pub open spec fn spec_axis_offset_checked(c: Ratio, lo: Ratio, hi: Ratio) -> Option<Ratio> {
    let e = spec_axis_offset(c, lo, hi);
    if rat_fits(e) {
        Some(rat_norm(e))
    } else {
        None
    }
}

/// Resolution of the ball against one rectangle under the reflection
/// model: the possibly reflected velocity and the struck side, if any.
pub open spec fn spec_resolve_reflect(
    rect: RectModel,
    bx: Ratio,
    by: Ratio,
    vx: Ratio,
    vy: Ratio,
    radius: int,
) -> Option<(Ratio, Ratio, Option<HitSide>)> {
    match spec_axis_offset_checked(bx, rect.x0, rect.x1) {
        None => None,
        Some(ox) => match spec_axis_offset_checked(by, rect.y0, rect.y1) {
            None => None,
            Some(oy) => if spec_overlaps(ox, oy, radius) {
                let side = spec_side(ox, oy);
                let v2 = spec_reflect(vx, vy, side);
                Some((v2.0, v2.1, Some(side)))
            } else {
                Some((vx, vy, None))
            },
        },
    }
}

/// Resolves the ball against one rectangle under the reflection model.
pub fn resolve_reflect(
    rect: &Rect,
    bx: &Frac,
    by: &Frac,
    vx: &Frac,
    vy: &Frac,
    radius: i64,
) -> (r: Option<(Frac, Frac, Option<HitSide>)>)
    requires
        rect.wf(),
        bx.wf(),
        by.wf(),
        vx.wf(),
        vy.wf(),
        1 <= radius <= 32767,
    ensures
        ({
            let s = spec_resolve_reflect(rect@, bx@, by@, vx@, vy@, radius as int);
            match r {
                Some(t) => t.0.wf() && t.1.wf() && s == Some((t.0@, t.1@, t.2)),
                None => s is None,
            }
        }),
{
    let ox = match axis_offset(bx, &rect.x0, &rect.x1) {
        Some(v) => v,
        None => {
            return None;
        },
    };
    let oy = match axis_offset(by, &rect.y0, &rect.y1) {
        Some(v) => v,
        None => {
            return None;
        },
    };
    if overlaps(&ox, &oy, radius) {
        let side = side_of_offset(&ox, &oy);
        let v2 = reflect_velocity(vx, vy, side);
        Some((v2.0, v2.1, Some(side)))
    } else {
        Some((*vx, *vy, None))
    }
}

/// The rectangle of the top wall: the court's full width, one wall
/// thickness deep, flush with the court's top edge.
pub open spec fn spec_top_wall(c: ConfigModel) -> RectModel {
    RectModel {
        x0: rat_of_int(-c.half_width),
        x1: rat_of_int(c.half_width),
        y0: rat_of_int(c.half_height - c.wall_thickness),
        y1: rat_of_int(c.half_height),
    }
}

/// The rectangle of the bottom wall, mirroring the top wall.
pub open spec fn spec_bottom_wall(c: ConfigModel) -> RectModel {
    RectModel {
        x0: rat_of_int(-c.half_width),
        x1: rat_of_int(c.half_width),
        y0: rat_of_int(-c.half_height),
        y1: rat_of_int(-c.half_height + c.wall_thickness),
    }
}

/// Builds the two wall rectangles.
pub fn wall_rects(cfg: &Config) -> (r: (Rect, Rect))
    requires
        config_wf(cfg@),
    ensures
        r.0.wf(),
        r.1.wf(),
        r.0@ == spec_top_wall(cfg@),
        r.1@ == spec_bottom_wall(cfg@),
{
    let top = Rect {
        x0: Frac::from_int(-cfg.half_width),
        x1: Frac::from_int(cfg.half_width),
        y0: Frac::from_int(cfg.half_height - cfg.wall_thickness),
        y1: Frac::from_int(cfg.half_height),
    };
    let bottom = Rect {
        x0: Frac::from_int(-cfg.half_width),
        x1: Frac::from_int(cfg.half_width),
        y0: Frac::from_int(-cfg.half_height),
        y1: Frac::from_int(-cfg.half_height + cfg.wall_thickness),
    };
    (top, bottom)
}

/// The rectangle of a paddle at vertical centre `y`, or `None` when a
/// vertical bound would not fit.
pub open spec fn spec_paddle_rect(c: ConfigModel, side: CourtSide, y: Ratio) -> Option<RectModel> {
    let xc = paddle_centre_x(c, side);
    let e0 = rat_sub(y, rat_of_int(c.paddle_half_height));
    let e1 = rat_add(y, rat_of_int(c.paddle_half_height));
    if !rat_fits(e0) || !rat_fits(e1) {
        None
    } else {
        Some(RectModel {
            x0: rat_of_int(xc - c.paddle_half_width),
            x1: rat_of_int(xc + c.paddle_half_width),
            y0: rat_norm(e0),
            y1: rat_norm(e1),
        })
    }
}

/// Builds a paddle's rectangle from its side and vertical centre.
pub fn paddle_rect(cfg: &Config, side: CourtSide, y: &Frac) -> (r: Option<Rect>)
    requires
        config_wf(cfg@),
        y.wf(),
    ensures
        ({
            let s = spec_paddle_rect(cfg@, side, y@);
            match r {
                Some(q) => q.wf() && s == Some(q@),
                None => s is None,
            }
        }),
{
    let xc: i64 = match side {
        CourtSide::Left => -(cfg.half_width - cfg.paddle_half_width),
        CourtSide::Right => cfg.half_width - cfg.paddle_half_width,
    };
    let hh = Frac::from_int(cfg.paddle_half_height);
    let y0 = match y.try_sub(&hh) {
        Some(v) => v,
        None => {
            return None;
        },
    };
    let y1 = match y.try_add(&hh) {
        Some(v) => v,
        None => {
            return None;
        },
    };
    Some(Rect {
        x0: Frac::from_int(xc - cfg.paddle_half_width),
        x1: Frac::from_int(xc + cfg.paddle_half_width),
        y0,
        y1,
    })
}

/// Resolution of the ball against one paddle: build the paddle's
/// rectangle, test for overlap, and answer by the configured response —
/// reflection, or the bounce-angle model.
pub open spec fn spec_resolve_paddle(
    c: ConfigModel,
    side: CourtSide,
    paddle_y: Ratio,
    bx: Ratio,
    by: Ratio,
    vx: Ratio,
    vy: Ratio,
) -> Option<(Ratio, Ratio, Option<HitSide>)> {
    match spec_paddle_rect(c, side, paddle_y) {
        None => None,
        Some(rect) => match spec_axis_offset_checked(bx, rect.x0, rect.x1) {
            None => None,
            Some(ox) => match spec_axis_offset_checked(by, rect.y0, rect.y1) {
                None => None,
                Some(oy) => if spec_overlaps(ox, oy, c.ball_radius) {
                    let hside = spec_side(ox, oy);
                    if c.paddle_response == PaddleResponse::Angle {
                        let v2 = spec_bounce(c, paddle_y, by, side);
                        Some((v2.0, v2.1, Some(hside)))
                    } else {
                        let v2 = spec_reflect(vx, vy, hside);
                        Some((v2.0, v2.1, Some(hside)))
                    }
                } else {
                    Some((vx, vy, None))
                },
            },
        },
    }
}

/// Resolves the ball against one paddle under the configured response.
pub fn resolve_paddle(
    cfg: &Config,
    side: CourtSide,
    paddle_y: &Frac,
    bx: &Frac,
    by: &Frac,
    vx: &Frac,
    vy: &Frac,
) -> (r: Option<(Frac, Frac, Option<HitSide>)>)
    requires
        config_wf(cfg@),
        paddle_y.wf(),
        bx.wf(),
        by.wf(),
        vx.wf(),
        vy.wf(),
    ensures
        ({
            let s = spec_resolve_paddle(cfg@, side, paddle_y@, bx@, by@, vx@, vy@);
            match r {
                Some(t) => t.0.wf() && t.1.wf() && s == Some((t.0@, t.1@, t.2)),
                None => s is None,
            }
        }),
{
    let rect = match paddle_rect(cfg, side, paddle_y) {
        Some(v) => v,
        None => {
            return None;
        },
    };
    let ox = match axis_offset(bx, &rect.x0, &rect.x1) {
        Some(v) => v,
        None => {
            return None;
        },
    };
    let oy = match axis_offset(by, &rect.y0, &rect.y1) {
        Some(v) => v,
        None => {
            return None;
        },
    };
    if overlaps(&ox, &oy, cfg.ball_radius) {
        let hside = side_of_offset(&ox, &oy);
        match cfg.paddle_response {
            PaddleResponse::Angle => {
                let v2 = paddle_bounce(cfg, paddle_y, by, side);
                Some((v2.0, v2.1, Some(hside)))
            },
            PaddleResponse::Reflect => {
                let v2 = reflect_velocity(vx, vy, hside);
                Some((v2.0, v2.1, Some(hside)))
            },
        }
    } else {
        Some((*vx, *vy, None))
    }
}

/// The collision events of one tick, in resolution order: top wall,
/// bottom wall, left paddle, right paddle.
pub open spec fn spec_events(
    e1: Option<HitSide>,
    e2: Option<HitSide>,
    e3: Option<HitSide>,
    e4: Option<HitSide>,
) -> Seq<Contact> {
    let s0 = Seq::<Contact>::empty();
    let s1 = match e1 {
        Some(h) => s0.push(Contact { obstacle: Obstacle::TopWall, side: h }),
        None => s0,
    };
    let s2 = match e2 {
        Some(h) => s1.push(Contact { obstacle: Obstacle::BottomWall, side: h }),
        None => s1,
    };
    let s3 = match e3 {
        Some(h) => s2.push(Contact { obstacle: Obstacle::LeftPaddle, side: h }),
        None => s2,
    };
    match e4 {
        Some(h) => s3.push(Contact { obstacle: Obstacle::RightPaddle, side: h }),
        None => s3,
    }
}

/// One whole tick over the state model: paddle motion for both paddles,
/// ball motion, then collision resolution against the top wall, the
/// bottom wall, the left paddle and the right paddle, in that fixed
/// order, each later resolution acting on the already-updated velocity.
/// `None` exactly when some exact intermediate value would not fit.
pub open spec fn spec_tick(c: ConfigModel, s: StateModel, li: int, ri: int)
    -> Option<(StateModel, Seq<Contact>)> {
    match spec_move_paddle(c, s.left_y, li) {
        None => None,
        Some(ly) => match spec_move_paddle(c, s.right_y, ri) {
            None => None,
            Some(ry) => match spec_ball_axis(c, s.ball.x, s.ball.vx) {
                None => None,
                Some(bx) => match spec_ball_axis(c, s.ball.y, s.ball.vy) {
                    None => None,
                    Some(by) => match spec_resolve_reflect(
                        spec_top_wall(c), bx, by, s.ball.vx, s.ball.vy, c.ball_radius,
                    ) {
                        None => None,
                        Some(w1) => match spec_resolve_reflect(
                            spec_bottom_wall(c), bx, by, w1.0, w1.1, c.ball_radius,
                        ) {
                            None => None,
                            Some(w2) => match spec_resolve_paddle(
                                c, CourtSide::Left, ly, bx, by, w2.0, w2.1,
                            ) {
                                None => None,
                                Some(p1) => match spec_resolve_paddle(
                                    c, CourtSide::Right, ry, bx, by, p1.0, p1.1,
                                ) {
                                    None => None,
                                    Some(p2) => Some((
                                        StateModel {
                                            ball: crate::world::BallModel {
                                                x: bx,
                                                y: by,
                                                vx: p2.0,
                                                vy: p2.1,
                                            },
                                            left_y: ly,
                                            right_y: ry,
                                        },
                                        spec_events(w1.2, w2.2, p1.2, p2.2),
                                    )),
                                },
                            },
                        },
                    },
                },
            },
        },
    }
}

/// Advances the world by one fixed tick, returning the tick's collision
/// events in resolution order; a paddle event doubles as the collision
/// notification for the host's audio. `None` exactly when the exact
/// result would not fit the fraction type; the world is then unchanged.
pub fn tick(
    w: &mut World,
    left_up: bool,
    left_down: bool,
    right_up: bool,
    right_down: bool,
) -> (r: Option<Vec<Contact>>)
    requires
        old(w).wf(),
    ensures
        ({
            let s = spec_tick(
                old(w).config@,
                old(w)@,
                intent_of(left_up, left_down),
                intent_of(right_up, right_down),
            );
            match r {
                Some(evs) => s is Some && final(w).wf() && final(w).config == old(w).config
                    && final(w)@ == s.unwrap().0 && evs@ == s.unwrap().1,
                None => s is None && *final(w) == *old(w),
            }
        }),
{
    let cfg = w.config;
    let li = paddle_intent(left_up, left_down);
    let ri = paddle_intent(right_up, right_down);
    let ly = match move_paddle(&cfg, &w.left.y, li) {
        Some(v) => v,
        None => {
            return None;
        },
    };
    let ry = match move_paddle(&cfg, &w.right.y, ri) {
        Some(v) => v,
        None => {
            return None;
        },
    };
    let bx = match ball_axis(&cfg, &w.ball.x, &w.ball.vx) {
        Some(v) => v,
        None => {
            return None;
        },
    };
    let by = match ball_axis(&cfg, &w.ball.y, &w.ball.vy) {
        Some(v) => v,
        None => {
            return None;
        },
    };
    let walls = wall_rects(&cfg);
    let w1 = match resolve_reflect(&walls.0, &bx, &by, &w.ball.vx, &w.ball.vy, cfg.ball_radius) {
        Some(v) => v,
        None => {
            return None;
        },
    };
    let w2 = match resolve_reflect(&walls.1, &bx, &by, &w1.0, &w1.1, cfg.ball_radius) {
        Some(v) => v,
        None => {
            return None;
        },
    };
    let p1 = match resolve_paddle(&cfg, CourtSide::Left, &ly, &bx, &by, &w2.0, &w2.1) {
        Some(v) => v,
        None => {
            return None;
        },
    };
    let p2 = match resolve_paddle(&cfg, CourtSide::Right, &ry, &bx, &by, &p1.0, &p1.1) {
        Some(v) => v,
        None => {
            return None;
        },
    };
    let mut events: Vec<Contact> = Vec::new();
    if let Some(h) = w1.2 {
        events.push(Contact { obstacle: Obstacle::TopWall, side: h });
    }
    if let Some(h) = w2.2 {
        events.push(Contact { obstacle: Obstacle::BottomWall, side: h });
    }
    if let Some(h) = p1.2 {
        events.push(Contact { obstacle: Obstacle::LeftPaddle, side: h });
    }
    if let Some(h) = p2.2 {
        events.push(Contact { obstacle: Obstacle::RightPaddle, side: h });
    }
    w.left = Paddle { y: ly };
    w.right = Paddle { y: ry };
    w.ball = Ball { x: bx, y: by, vx: p2.0, vy: p2.1 };
    Some(events)
}

} // verus!
