use paddle_bounce::geom::HitSide;
use paddle_bounce::geom::side_of_offset;
use paddle_bounce::rational::Frac;
use paddle_bounce::step::move_paddle;
use paddle_bounce::step::paddle_intent;
use paddle_bounce::step::tick;
use paddle_bounce::world::Config;
use paddle_bounce::world::Obstacle;
use paddle_bounce::world::PaddleResponse;
use paddle_bounce::world::World;

#[test]
fn intents_cancel_and_map() {
    assert_eq!(paddle_intent(false, false), 0);
    assert_eq!(paddle_intent(true, false), 1);
    assert_eq!(paddle_intent(false, true), -1);
    assert_eq!(paddle_intent(true, true), 0);
}

#[test]
fn initial_world_is_seeded() {
    let w = World::new(Config::standard()).unwrap();
    assert!(w.ball.x.eq_int(0));
    assert!(w.ball.y.eq_int(0));
    assert!(w.ball.vx.eq_int(500));
    assert!(w.ball.vy.eq_int(500));
    assert!(w.left.y.eq_int(0));
    assert!(w.right.y.eq_int(0));
}

#[test]
fn degenerate_configs_are_rejected() {
    let mut c = Config::standard();
    c.wall_thickness = 0;
    assert!(World::new(c).is_none());
    let mut c = Config::standard();
    c.half_height = 40; // walls plus paddle no longer fit
    assert!(World::new(c).is_none());
    let mut c = Config::standard();
    c.dt = Frac { n: 0, d: 1 }; // a zero time step
    assert!(World::new(c).is_none());
    let mut c = Config::standard();
    c.ball_radius = -12;
    assert!(World::new(c).is_none());
}

#[test]
fn free_flight_moves_by_velocity_dt() {
    let mut w = World::new(Config::standard()).unwrap();
    let events = tick(&mut w, false, false, false, false).unwrap();
    assert!(events.is_empty());
    // one sixtieth of (500, 500): exactly 25/3 on each axis
    assert!(w.ball.x.eq_frac(&Frac { n: 25, d: 3 }));
    assert!(w.ball.y.eq_frac(&Frac { n: 25, d: 3 }));
    assert!(w.ball.vx.eq_int(500));
    assert!(w.ball.vy.eq_int(500));
    assert!(w.left.y.eq_int(0));
    assert!(w.right.y.eq_int(0));
}

#[test]
fn top_wall_reflects_upward_motion() {
    let mut w = World::new(Config::standard()).unwrap();
    w.ball.x = Frac { n: 0, d: 1 };
    w.ball.y = Frac { n: 280, d: 1 };
    w.ball.vx = Frac { n: 123, d: 1 };
    w.ball.vy = Frac { n: 500, d: 1 };
    let events = tick(&mut w, false, false, false, false).unwrap();
    // the moved ball sits inside the top wall band [284, 300]
    assert_eq!(events.len(), 1);
    assert_eq!(events[0].obstacle, Obstacle::TopWall);
    assert_eq!(events[0].side, HitSide::Bottom);
    // the vertical component flips sign exactly, the horizontal one stays
    assert!(w.ball.vy.eq_int(-500));
    assert!(w.ball.vx.eq_int(123));
}

#[test]
fn wall_contact_moving_away_is_not_reflected_again() {
    let mut w = World::new(Config::standard()).unwrap();
    w.ball.x = Frac { n: 0, d: 1 };
    w.ball.y = Frac { n: 295, d: 1 };
    w.ball.vx = Frac { n: 0, d: 1 };
    w.ball.vy = Frac { n: -100, d: 1 };
    let events = tick(&mut w, false, false, false, false).unwrap();
    // still overlapping the top wall, but already leaving: event, no flip
    assert_eq!(events.len(), 1);
    assert_eq!(events[0].obstacle, Obstacle::TopWall);
    assert!(w.ball.vy.eq_int(-100));
}

#[test]
fn tangent_ball_does_not_collide() {
    let mut w = World::new(Config::standard()).unwrap();
    // top wall starts at y = 284; a radius-12 ball centred at 272 only touches
    w.ball.x = Frac { n: 0, d: 1 };
    w.ball.y = Frac { n: 272, d: 1 };
    w.ball.vx = Frac { n: 0, d: 1 };
    w.ball.vy = Frac { n: 0, d: 1 };
    let events = tick(&mut w, false, false, false, false).unwrap();
    assert!(events.is_empty());
    assert!(w.ball.vy.eq_int(0));
    // a tenth of a unit closer, and the same ball collides
    let mut w2 = World::new(Config::standard()).unwrap();
    w2.ball.x = Frac { n: 0, d: 1 };
    w2.ball.y = Frac { n: 2721, d: 10 };
    w2.ball.vx = Frac { n: 0, d: 1 };
    w2.ball.vy = Frac { n: 0, d: 1 };
    let events2 = tick(&mut w2, false, false, false, false).unwrap();
    assert_eq!(events2.len(), 1);
    assert_eq!(events2[0].obstacle, Obstacle::TopWall);
}

#[test]
fn left_paddle_centre_hit_goes_right_at_full_speed() {
    let mut w = World::new(Config::standard()).unwrap();
    // left paddle rectangle: x in [-618, -602], y in [-32, 32]
    w.ball.x = Frac { n: -590, d: 1 };
    w.ball.y = Frac { n: 0, d: 1 };
    w.ball.vx = Frac { n: -500, d: 1 };
    w.ball.vy = Frac { n: 0, d: 1 };
    let events = tick(&mut w, false, false, false, false).unwrap();
    assert_eq!(events.len(), 1);
    assert_eq!(events[0].obstacle, Obstacle::LeftPaddle);
    assert_eq!(events[0].side, HitSide::Right);
    // the angle model discards the incoming direction entirely
    assert!(w.ball.vx.eq_int(500));
    assert!(w.ball.vy.eq_int(0));
}

#[test]
fn left_paddle_hit_is_rightward_even_for_rightward_incoming() {
    let mut w = World::new(Config::standard()).unwrap();
    w.ball.x = Frac { n: -600, d: 1 };
    w.ball.y = Frac { n: 0, d: 1 };
    w.ball.vx = Frac { n: 500, d: 1 };
    w.ball.vy = Frac { n: 0, d: 1 };
    let events = tick(&mut w, false, false, false, false).unwrap();
    assert_eq!(events.len(), 1);
    assert_eq!(events[0].obstacle, Obstacle::LeftPaddle);
    assert!(w.ball.vx.is_pos());
}

#[test]
fn off_centre_paddle_hit_keeps_exact_speed() {
    let mut w = World::new(Config::standard()).unwrap();
    // the ball strikes 20 units below the left paddle's centre
    w.ball.x = Frac { n: -590, d: 1 };
    w.ball.y = Frac { n: -20, d: 1 };
    w.ball.vx = Frac { n: -500, d: 1 };
    w.ball.vy = Frac { n: 0, d: 1 };
    let events = tick(&mut w, false, false, false, false).unwrap();
    assert_eq!(events.len(), 1);
    assert_eq!(events[0].obstacle, Obstacle::LeftPaddle);
    // the (3, 4, 5) direction at speed 500: exactly (300, -400)
    assert!(w.ball.vx.eq_int(300));
    assert!(w.ball.vy.eq_int(-400));
    // squared speed is exactly 500 * 500, whatever the denominators
    let vx = w.ball.vx;
    let vy = w.ball.vy;
    let sq_num = (vx.n as i128) * (vx.n as i128) * (vy.d as i128) * (vy.d as i128)
        + (vy.n as i128) * (vy.n as i128) * (vx.d as i128) * (vx.d as i128);
    let den = (vx.d as i128) * (vy.d as i128);
    assert_eq!(sq_num, 250000 * den * den);
}

#[test]
fn slightly_off_centre_hit_still_deflects() {
    // one unit below the paddle's centre: the smallest step of the bounce
    // table, never a flat return
    let mut w = World::new(Config::standard()).unwrap();
    w.ball.x = Frac { n: -590, d: 1 };
    w.ball.y = Frac { n: -1, d: 1 };
    w.ball.vx = Frac { n: -500, d: 1 };
    w.ball.vy = Frac { n: 0, d: 1 };
    let events = tick(&mut w, false, false, false, false).unwrap();
    assert_eq!(events.len(), 1);
    assert_eq!(events[0].obstacle, Obstacle::LeftPaddle);
    // the (15, 8, 17) direction at speed 500, pointing down like the hit
    assert!(w.ball.vx.eq_frac(&Frac { n: 7500, d: 17 }));
    assert!(w.ball.vy.eq_frac(&Frac { n: -4000, d: 17 }));
    // mirrored: one unit above the centre deflects upward
    let mut w2 = World::new(Config::standard()).unwrap();
    w2.ball.x = Frac { n: -590, d: 1 };
    w2.ball.y = Frac { n: 1, d: 1 };
    w2.ball.vx = Frac { n: -500, d: 1 };
    w2.ball.vy = Frac { n: 0, d: 1 };
    tick(&mut w2, false, false, false, false).unwrap();
    assert!(w2.ball.vy.eq_frac(&Frac { n: 4000, d: 17 }));
}

#[test]
fn right_paddle_sends_the_ball_left() {
    let mut w = World::new(Config::standard()).unwrap();
    // right paddle rectangle: x in [602, 618], y in [-32, 32]
    w.ball.x = Frac { n: 590, d: 1 };
    w.ball.y = Frac { n: 10, d: 1 };
    w.ball.vx = Frac { n: 500, d: 1 };
    w.ball.vy = Frac { n: 0, d: 1 };
    let events = tick(&mut w, false, false, false, false).unwrap();
    assert_eq!(events.len(), 1);
    assert_eq!(events[0].obstacle, Obstacle::RightPaddle);
    assert_eq!(events[0].side, HitSide::Left);
    assert!(w.ball.vx.is_neg());
}

#[test]
fn reflect_policy_paddles_keep_the_orthogonal_component() {
    let mut c = Config::standard();
    c.paddle_response = PaddleResponse::Reflect;
    let mut w = World::new(c).unwrap();
    w.ball.x = Frac { n: -590, d: 1 };
    w.ball.y = Frac { n: 10, d: 1 };
    w.ball.vx = Frac { n: -500, d: 1 };
    w.ball.vy = Frac { n: 7, d: 1 };
    let events = tick(&mut w, false, false, false, false).unwrap();
    assert_eq!(events.len(), 1);
    assert_eq!(events[0].obstacle, Obstacle::LeftPaddle);
    // plain reflection: vx flips exactly, vy untouched
    assert!(w.ball.vx.eq_int(500));
    assert!(w.ball.vy.eq_int(7));
}

#[test]
fn paddle_clamps_at_the_band_and_stops() {
    // court height 600, wall 16, paddle half height 32: the band ends at 252
    let c = Config::standard();
    let mut y = Frac { n: 280, d: 1 };
    for _ in 0..10 {
        y = move_paddle(&c, &y, 1).unwrap();
        assert!(y.le(&Frac { n: 252, d: 1 }));
    }
    assert!(y.eq_int(252));
    // and once clamped it stops advancing
    let again = move_paddle(&c, &y, 1).unwrap();
    assert!(again.eq_int(252));
}

#[test]
fn paddles_move_inside_the_band_during_ticks() {
    let mut w = World::new(Config::standard()).unwrap();
    for _ in 0..120 {
        // hold "up" for the left paddle, "down" for the right one
        tick(&mut w, true, false, false, true).unwrap();
        assert!(w.left.y.le(&Frac { n: 252, d: 1 }));
        assert!(Frac { n: -252, d: 1 }.le(&w.right.y));
    }
    assert!(w.left.y.eq_int(252));
    assert!(w.right.y.eq_int(-252));
}

#[test]
fn side_determination_is_symmetric() {
    // dominant horizontal offset: right of the obstacle, then mirrored
    let ox = Frac { n: 5, d: 1 };
    let oy = Frac { n: 1, d: 1 };
    assert_eq!(side_of_offset(&ox, &oy), HitSide::Right);
    assert_eq!(side_of_offset(&ox.neg(), &oy), HitSide::Left);
    // dominant vertical offset
    assert_eq!(side_of_offset(&oy, &ox), HitSide::Top);
    assert_eq!(side_of_offset(&oy, &ox.neg()), HitSide::Bottom);
    // a tie resolves to the vertical pair
    let t = Frac { n: 3, d: 1 };
    assert_eq!(side_of_offset(&t, &t), HitSide::Top);
    assert_eq!(side_of_offset(&t, &t.neg()), HitSide::Bottom);
}

#[test]
fn corner_hits_resolve_in_fixed_order() {
    let mut w = World::new(Config::standard()).unwrap();
    // the left paddle raised to the band's top: its rectangle reaches the
    // top wall, so one tick can strike both, walls resolved first
    w.left.y = Frac { n: 252, d: 1 };
    w.ball.x = Frac { n: -600, d: 1 };
    w.ball.y = Frac { n: 283, d: 1 };
    w.ball.vx = Frac { n: 0, d: 1 };
    w.ball.vy = Frac { n: 120, d: 1 };
    let events = tick(&mut w, false, false, false, false).unwrap();
    assert_eq!(events.len(), 2);
    assert_eq!(events[0].obstacle, Obstacle::TopWall);
    assert_eq!(events[0].side, HitSide::Bottom);
    assert_eq!(events[1].obstacle, Obstacle::LeftPaddle);
    assert_eq!(events[1].side, HitSide::Right);
    // the glancing hit at the paddle's lower reach caps the deflection:
    // the (7, 24, 25) direction at speed 500, exactly (140, 480)
    assert!(w.ball.vx.eq_int(140));
    assert!(w.ball.vy.eq_int(480));
}

#[test]
fn long_run_stays_exact() {
    // ten seconds of play with both paddles chasing the ball: every tick
    // stays representable, paddles stay in band, walls keep bouncing
    let mut w = World::new(Config::standard()).unwrap();
    let mut contacts = 0;
    for _ in 0..600 {
        let left_up = w.left.y.lt(&w.ball.y);
        let left_down = w.ball.y.lt(&w.left.y);
        let right_up = w.right.y.lt(&w.ball.y);
        let right_down = w.ball.y.lt(&w.right.y);
        let events = tick(&mut w, left_up, left_down, right_up, right_down).unwrap();
        contacts += events.len();
        assert!(w.left.y.le(&Frac { n: 252, d: 1 }));
        assert!(Frac { n: -252, d: 1 }.le(&w.left.y));
        assert!(w.right.y.le(&Frac { n: 252, d: 1 }));
        assert!(Frac { n: -252, d: 1 }.le(&w.right.y));
    }
    assert!(contacts >= 1);
}

#[test]
fn wall_bounce_round_trip() {
    // a straight vertical ball bounces between the walls and returns
    let mut w = World::new(Config::standard()).unwrap();
    w.ball.vx = Frac { n: 0, d: 1 };
    w.ball.vy = Frac { n: 500, d: 1 };
    let mut bounces = 0;
    for _ in 0..150 {
        let events = tick(&mut w, false, false, false, false).unwrap();
        bounces += events.len();
    }
    assert!(bounces >= 2);
    // speed magnitude is preserved by reflections
    assert!(w.ball.vy.eq_int(500) || w.ball.vy.eq_int(-500));
    assert!(w.ball.vx.eq_int(0));
}
