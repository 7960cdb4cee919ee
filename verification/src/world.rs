//! The world: court configuration and the mutable simulation state.
//!
//! The court is a fixed rectangle centred on the origin. Two horizontal
//! walls line its top and bottom edges, one paddle sits at each vertical
//! edge, and a single ball carries an exact rational position and velocity.
//! Degenerate dimensions are rejected when the world is built, never at
//! tick time.

use vstd::prelude::*;
use crate::rational::Frac;
use crate::rational::Ratio;
use crate::rational::rat_le;
use crate::rational::rat_wf;
use crate::rational::rat_of_int;
use crate::geom::HitSide;

verus! {

/// Largest value any court dimension or speed may have.
pub const GEOM_LIMIT: i64 = 32767;

/// Which player's side of the court a paddle defends.
#[derive(Clone, Copy, Debug, PartialEq, Eq, Structural)]
pub enum CourtSide {
    Left,
    Right,
}

/// How the resolver answers a ball-versus-paddle overlap.
///
/// Walls always reflect. Paddles either reflect as a plain rectangle or
/// replace the velocity by the paddle-relative bounce-angle model.
#[derive(Clone, Copy, Debug, PartialEq, Eq, Structural)]
pub enum PaddleResponse {
    Reflect,
    Angle,
}

/// The obstacle a collision event names, in resolution order.
#[derive(Clone, Copy, Debug, PartialEq, Eq, Structural)]
pub enum Obstacle {
    TopWall,
    BottomWall,
    LeftPaddle,
    RightPaddle,
}

/// One collision resolved during a tick: which side of which obstacle the
/// ball struck. Events are not persisted across ticks.
#[derive(Clone, Copy, Debug, PartialEq, Eq, Structural)]
pub struct Contact {
    pub obstacle: Obstacle,
    pub side: HitSide,
}

/// The fixed court configuration at the specification level.
pub struct ConfigModel {
    pub half_width: int,
    pub half_height: int,
    pub wall_thickness: int,
    pub paddle_half_width: int,
    pub paddle_half_height: int,
    pub ball_radius: int,
    pub ball_speed: int,
    pub paddle_speed: int,
    pub dt: Ratio,
    pub paddle_response: PaddleResponse,
}

/// The fixed court configuration: all lengths are halves of the full
/// extents, the time step is an exact fraction of a second.
#[derive(Clone, Copy, Debug, PartialEq, Eq, Structural)]
pub struct Config {
    pub half_width: i64,
    pub half_height: i64,
    pub wall_thickness: i64,
    pub paddle_half_width: i64,
    pub paddle_half_height: i64,
    pub ball_radius: i64,
    pub ball_speed: i64,
    pub paddle_speed: i64,
    pub dt: Frac,
    pub paddle_response: PaddleResponse,
}

impl View for Config {
    type V = ConfigModel;

    open spec fn view(&self) -> ConfigModel {
        ConfigModel {
            half_width: self.half_width as int,
            half_height: self.half_height as int,
            wall_thickness: self.wall_thickness as int,
            paddle_half_width: self.paddle_half_width as int,
            paddle_half_height: self.paddle_half_height as int,
            ball_radius: self.ball_radius as int,
            ball_speed: self.ball_speed as int,
            paddle_speed: self.paddle_speed as int,
            dt: self.dt@,
            paddle_response: self.paddle_response,
        }
    }
}

/// A valid configuration: positive bounded dimensions and speeds, a
/// positive time step, walls and paddle leaving room inside the court.
pub open spec fn config_wf(c: ConfigModel) -> bool {
    &&& 1 <= c.half_width <= GEOM_LIMIT
    &&& 1 <= c.half_height <= GEOM_LIMIT
    &&& 1 <= c.wall_thickness <= GEOM_LIMIT
    &&& 1 <= c.paddle_half_width <= GEOM_LIMIT
    &&& 1 <= c.paddle_half_height <= GEOM_LIMIT
    &&& 1 <= c.ball_radius <= GEOM_LIMIT
    &&& 1 <= c.ball_speed <= GEOM_LIMIT
    &&& 1 <= c.paddle_speed <= GEOM_LIMIT
    &&& c.wall_thickness + c.paddle_half_height < c.half_height
    &&& c.paddle_half_width < c.half_width
    &&& 1 <= c.dt.d && c.dt.d <= crate::rational::DEN_LIMIT
    &&& 1 <= c.dt.n && c.dt.n <= crate::rational::NUM_LIMIT
}

/// Highest centre a paddle may reach: the court's half height less the
/// wall and the paddle's own half height.
pub open spec fn paddle_bound(c: ConfigModel) -> int {
    c.half_height - c.wall_thickness - c.paddle_half_height
}

/// The fixed x coordinate of a paddle's centre.
pub open spec fn paddle_centre_x(c: ConfigModel, side: CourtSide) -> int {
    match side {
        CourtSide::Left => -(c.half_width - c.paddle_half_width),
        CourtSide::Right => c.half_width - c.paddle_half_width,
    }
}

impl Config {
    /// Whether this configuration is valid to simulate.
    pub fn is_valid(&self) -> (r: bool)
        ensures
            r == config_wf(self@),
    {
        1 <= self.half_width && self.half_width <= GEOM_LIMIT
            && 1 <= self.half_height && self.half_height <= GEOM_LIMIT
            && 1 <= self.wall_thickness && self.wall_thickness <= GEOM_LIMIT
            && 1 <= self.paddle_half_width && self.paddle_half_width <= GEOM_LIMIT
            && 1 <= self.paddle_half_height && self.paddle_half_height <= GEOM_LIMIT
            && 1 <= self.ball_radius && self.ball_radius <= GEOM_LIMIT
            && 1 <= self.ball_speed && self.ball_speed <= GEOM_LIMIT
            && 1 <= self.paddle_speed && self.paddle_speed <= GEOM_LIMIT
            && self.wall_thickness + self.paddle_half_height < self.half_height
            && self.paddle_half_width < self.half_width
            && 1 <= self.dt.d && self.dt.d <= crate::rational::DEN_LIMIT
            && 1 <= self.dt.n && self.dt.n <= crate::rational::NUM_LIMIT
    }

    /// The reference court: a 1236 by 600 court, 16 thick walls, 16 by 64
    /// paddles, a ball of radius 12 at 500 units per second, paddles at 500
    /// units per second, sixty ticks per second, angle-model paddles.
    pub fn standard() -> (r: Config)
        ensures
            r == (Config {
                half_width: 618,
                half_height: 300,
                wall_thickness: 16,
                paddle_half_width: 8,
                paddle_half_height: 32,
                ball_radius: 12,
                ball_speed: 500,
                paddle_speed: 500,
                dt: Frac { n: 1, d: 60 },
                paddle_response: PaddleResponse::Angle,
            }),
            config_wf(r@),
    {
        Config {
            half_width: 618,
            half_height: 300,
            wall_thickness: 16,
            paddle_half_width: 8,
            paddle_half_height: 32,
            ball_radius: 12,
            ball_speed: 500,
            paddle_speed: 500,
            dt: Frac { n: 1, d: 60 },
            paddle_response: PaddleResponse::Angle,
        }
    }
}

/// The ball at the specification level.
pub struct BallModel {
    pub x: Ratio,
    pub y: Ratio,
    pub vx: Ratio,
    pub vy: Ratio,
}

/// The mutable simulation state at the specification level.
pub struct StateModel {
    pub ball: BallModel,
    pub left_y: Ratio,
    pub right_y: Ratio,
}

/// The ball: an exact position and velocity; the radius lives in `Config`.
#[derive(Clone, Copy, Debug, PartialEq, Eq, Structural)]
pub struct Ball {
    pub x: Frac,
    pub y: Frac,
    pub vx: Frac,
    pub vy: Frac,
}

impl View for Ball {
    type V = BallModel;

    open spec fn view(&self) -> BallModel {
        BallModel { x: self.x@, y: self.y@, vx: self.vx@, vy: self.vy@ }
    }
}

/// A paddle: only its vertical centre moves; x is fixed by its side.
#[derive(Clone, Copy, Debug, PartialEq, Eq, Structural)]
pub struct Paddle {
    pub y: Frac,
}

/// The whole world: configuration, ball and both paddles.
#[derive(Clone, Copy, Debug)]
pub struct World {
    pub config: Config,
    pub ball: Ball,
    pub left: Paddle,
    pub right: Paddle,
}

impl View for World {
    type V = StateModel;

    open spec fn view(&self) -> StateModel {
        StateModel { ball: self.ball@, left_y: self.left.y@, right_y: self.right.y@ }
    }
}

/// A paddle centre that lies within the clamped band of the court.
pub open spec fn paddle_in_band(c: ConfigModel, y: Ratio) -> bool {
    &&& rat_le(rat_of_int(-paddle_bound(c)), y)
    &&& rat_le(y, rat_of_int(paddle_bound(c)))
}

/// A well-formed state model: positive denominators throughout and both
/// paddles inside the clamped band.
pub open spec fn state_wf(c: ConfigModel, s: StateModel) -> bool {
    &&& rat_wf(s.ball.x) && rat_wf(s.ball.y) && rat_wf(s.ball.vx) && rat_wf(s.ball.vy)
    &&& rat_wf(s.left_y) && rat_wf(s.right_y)
    &&& paddle_in_band(c, s.left_y)
    &&& paddle_in_band(c, s.right_y)
}

impl World {
    /// A well-formed world: valid configuration, stored fractions
    /// throughout, and both paddles inside the clamped band.
    pub open spec fn wf(&self) -> bool {
        &&& config_wf(self.config@)
        &&& self.ball.x.wf() && self.ball.y.wf() && self.ball.vx.wf() && self.ball.vy.wf()
        &&& self.left.y.wf() && self.right.y.wf()
        &&& paddle_in_band(self.config@, self.left.y@)
        &&& paddle_in_band(self.config@, self.right.y@)
    }

    /// Builds the initial world for a configuration, or `None` exactly when
    /// the configuration is invalid: the ball at the origin with a seeded
    /// diagonal velocity of the ball speed on each axis, paddles centred.
    pub fn new(config: Config) -> (r: Option<World>)
        ensures
            ({
                match r {
                    Some(w) => config_wf(config@) && w.wf() && w.config == config
                        && w@.ball.x == rat_of_int(0)
                        && w@.ball.y == rat_of_int(0)
                        && w@.ball.vx == rat_of_int(config.ball_speed as int)
                        && w@.ball.vy == rat_of_int(config.ball_speed as int)
                        && w@.left_y == rat_of_int(0)
                        && w@.right_y == rat_of_int(0),
                    None => !config_wf(config@),
                }
            }),
    {
        if config.is_valid() {
            let v = Frac::from_int(config.ball_speed);
            let zero = Frac::from_int(0);
            Some(World {
                config,
                ball: Ball { x: zero, y: zero, vx: v, vy: v },
                left: Paddle { y: zero },
                right: Paddle { y: zero },
            })
        } else {
            None
        }
    }
}

} // verus!
