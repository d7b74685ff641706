//! Two-player Pong simulation: paddle movement with screen clamping, ball
//! integration, wall and paddle collision response, and scoring.
//!
//! Geometry is measured in milli-pixels (one pixel is `UNIT` units), time in
//! milliseconds, and velocities in pixels per second, which coincides with
//! milli-pixels per millisecond; a frame therefore advances a position by
//! `velocity * dt` with no further conversion.
use vstd::prelude::*;

use crate::fixed::{abs_i64, spec_abs};

verus! {

/// Milli-pixels per pixel: the resolution of all positions and lengths.
pub const UNIT: i64 = 1000;
/// Gap between a paddle's outer edge and the screen edge.
pub const RACKET_PADDING: i64 = 10 * UNIT;
/// Full height of a paddle.
pub const RACKET_HEIGHT: i64 = 100 * UNIT;
/// Half the height of a paddle.
pub const RACKET_HEIGHT_HALF: i64 = 50 * UNIT;
/// Full width of a paddle.
pub const RACKET_WIDTH: i64 = 20 * UNIT;
/// Half the width of a paddle.
pub const RACKET_WIDTH_HALF: i64 = 10 * UNIT;
/// Side length of the square ball.
pub const BALL_SIZE: i64 = 30 * UNIT;
/// Half the side length of the ball.
pub const BALL_SIZE_HALF: i64 = 15 * UNIT;
/// Paddle speed in pixels per second.
pub const PLAYER_SPEED: i64 = 500;
/// Magnitude of each ball velocity component after a reset, in pixels per second.
pub const BALL_VEL: i64 = 300;
/// Speed gained per axis on every frame of sustained paddle contact: one tenth
/// of `BALL_VEL`.
pub const BALL_ACC: i64 = 30;

/// Largest coordinate or screen size the simulation accepts, in milli-pixels.
pub const POS_LIMIT: i64 = 2_000_000_000_000_000;
/// Largest ball coordinate magnitude the simulation accepts; wider than
/// `POS_LIMIT` because a single frame can carry the ball far off screen.
pub const BALL_POS_LIMIT: i64 = 4_000_000_000_000_000_000;
/// Largest velocity component magnitude the simulation accepts.
pub const VEL_LIMIT: i64 = 1_000_000_000_000;
/// Largest frame time the simulation accepts, in milliseconds.
pub const DT_LIMIT: i64 = 1_000_000;

/// A two-component vector or point in milli-pixels (or velocity units).
#[derive(Clone, Copy, PartialEq, Eq, Structural, Debug)]
pub struct Vec2 {
    pub x: i64,
    pub y: i64,
}

/// `v` forced into `[low, high]`; when `v` is below `low` the result is `low`,
/// and otherwise when above `high` it is `high`.
pub open spec fn spec_clamp(v: int, low: int, high: int) -> int {
    if v < low {
        low
    } else if v > high {
        high
    } else {
        v
    }
}

/// Whether the ball centred at `(bx, by)` overlaps the paddle centred at
/// `(px, py)`: the axis-aligned bounding boxes intersect with strict edges.
pub open spec fn spec_intersects(bx: int, by: int, px: int, py: int) -> bool {
    &&& bx - BALL_SIZE_HALF < px + RACKET_WIDTH_HALF
    &&& bx + BALL_SIZE_HALF > px - RACKET_WIDTH_HALF
    &&& by - BALL_SIZE_HALF < py + RACKET_HEIGHT_HALF
    &&& by + BALL_SIZE_HALF > py - RACKET_HEIGHT_HALF
}

/// The ball's variables at the start or end of one frame.
pub ghost struct BallFrame {
    pub px: int,
    pub py: int,
    pub vx: int,
    pub vy: int,
    /// Whether the ball overlapped a paddle when the previous frame ended.
    pub inside: bool,
}

/// After integrating, the ball's centre has passed the left screen edge, which
/// awards a point to player two.
pub open spec fn spec_scores_left(f: BallFrame, dt: int) -> bool {
    f.px + f.vx * dt < 0
}

/// After integrating, the ball's centre has passed the right screen edge
/// (checked only when the left edge was not passed), which awards a point to
/// player one.
pub open spec fn spec_scores_right(f: BallFrame, dt: int, w: int) -> bool {
    f.px + f.vx * dt > w
}

/// The contact with the paddle at `(px, py)` counts as a front-face hit for the
/// left paddle: the ball is vertically inside the paddle's extent, or the
/// ball's left edge is past the paddle's centre.
pub open spec fn spec_front_hit_left(mx: int, my: int, px: int, py: int) -> bool {
    (my - BALL_SIZE_HALF > py - RACKET_HEIGHT_HALF && my + BALL_SIZE_HALF < py
        + RACKET_HEIGHT_HALF) || mx - BALL_SIZE_HALF > px
}

/// The contact counts as a front-face hit for the right paddle: the ball is
/// vertically inside the paddle's extent, or the ball's right edge is short of
/// the paddle's centre.
pub open spec fn spec_front_hit_right(mx: int, my: int, px: int, py: int) -> bool {
    (my - BALL_SIZE_HALF > py - RACKET_HEIGHT_HALF && my + BALL_SIZE_HALF < py
        + RACKET_HEIGHT_HALF) || mx + BALL_SIZE_HALF < px
}

/// One frame of the ball in the non-scoring case: integrate the position,
/// bounce off the top and bottom walls, reflect off a newly touched paddle
/// (front-face contact flips the horizontal component away from the paddle,
/// edge contact flips the vertical component), and while contact persists add
/// `BALL_ACC` to each velocity component in its current sign direction.
pub open spec fn spec_ball_step(
    f: BallFrame,
    p1x: int,
    p1y: int,
    p2x: int,
    p2y: int,
    dt: int,
    w: int,
    h: int,
) -> BallFrame {
    let mx: int = f.px + f.vx * dt;
    let my: int = f.py + f.vy * dt;
    let vy1: int = if my <= BALL_SIZE_HALF {
        spec_abs(f.vy)
    } else if my >= h - BALL_SIZE_HALF {
        -spec_abs(f.vy)
    } else {
        f.vy
    };
    let hit1 = spec_intersects(mx, my, p1x, p1y);
    let hit2 = spec_intersects(mx, my, p2x, p2y);
    let vx2: int = if !f.inside && hit1 && spec_front_hit_left(mx, my, p1x, p1y) {
        spec_abs(f.vx)
    } else {
        f.vx
    };
    let vy2: int = if !f.inside && hit1 && !spec_front_hit_left(mx, my, p1x, p1y) {
        -vy1
    } else {
        vy1
    };
    let vx3: int = if !f.inside && hit2 && spec_front_hit_right(mx, my, p2x, p2y) {
        -spec_abs(vx2)
    } else {
        vx2
    };
    let vy3: int = if !f.inside && hit2 && !spec_front_hit_right(mx, my, p2x, p2y) {
        -vy2
    } else {
        vy2
    };
    let touching = hit1 || hit2;
    let vx4: int = if touching {
        if vx3 > 0 {
            vx3 + BALL_ACC
        } else {
            vx3 - BALL_ACC
        }
    } else {
        vx3
    };
    let vy4: int = if touching {
        if vy3 > 0 {
            vy3 + BALL_ACC
        } else {
            vy3 - BALL_ACC
        }
    } else {
        vy3
    };
    BallFrame { px: mx, py: my, vx: vx4, vy: vy4, inside: touching }
}

/// Bounds a product of a velocity and a frame time.
proof fn lemma_vel_dt_bound(v: int, d: int)
    requires
        -VEL_LIMIT <= v <= VEL_LIMIT,
        0 <= d <= DT_LIMIT,
    ensures
        -1_000_000_000_000_000_000 <= v * d <= 1_000_000_000_000_000_000,
{
    assert(-1_000_000_000_000_000_000 <= v * d <= 1_000_000_000_000_000_000) by (nonlinear_arith)
        requires
            -VEL_LIMIT <= v <= VEL_LIMIT,
            0 <= d <= DT_LIMIT,
    ;
}

/// Bounds the paddle displacement `PLAYER_SPEED * dt`.
proof fn lemma_paddle_dt_bound(d: int)
    requires
        0 <= d <= DT_LIMIT,
    ensures
        0 <= PLAYER_SPEED * d <= 500_000_000_000,
{
    assert(0 <= PLAYER_SPEED * d <= 500_000_000_000) by (nonlinear_arith)
        requires
            0 <= d <= DT_LIMIT,
    ;
}

/// Forces `value` into `[low, high]`, moving it to the nearer bound when it
/// lies outside.
pub fn clamp(value: &mut i64, low: i64, high: i64)
    ensures
        *final(value) == spec_clamp(*old(value) as int, low as int, high as int),
{
    if *value < low {
        *value = low;
    } else if *value > high {
        *value = high;
    }
}

/// Whether the ball centred at `ball` overlaps the paddle centred at `racket`.
pub fn intersects(ball: Vec2, racket: Vec2) -> (r: bool)
    requires
        -6_000_000_000_000_000_000 <= ball.x <= 6_000_000_000_000_000_000,
        -6_000_000_000_000_000_000 <= ball.y <= 6_000_000_000_000_000_000,
        -POS_LIMIT <= racket.x <= POS_LIMIT,
        -POS_LIMIT <= racket.y <= POS_LIMIT,
    ensures
        r == spec_intersects(ball.x as int, ball.y as int, racket.x as int, racket.y as int),
{
    ball.x - BALL_SIZE_HALF < racket.x + RACKET_WIDTH_HALF && ball.x + BALL_SIZE_HALF > racket.x
        - RACKET_WIDTH_HALF && ball.y - BALL_SIZE_HALF < racket.y + RACKET_HEIGHT_HALF && ball.y
        + BALL_SIZE_HALF > racket.y - RACKET_HEIGHT_HALF
}

/// The paddle's vertical position after one frame: it moves by
/// `PLAYER_SPEED * dt` against `y_dir` when the key is held and the ball does
/// not overlap it, and is then clamped so the paddle stays fully on screen.
pub open spec fn spec_racket_step(
    px: int,
    py: int,
    bx: int,
    by: int,
    key: bool,
    y_dir: int,
    dt: int,
    h: int,
) -> int {
    let moved: int = if !spec_intersects(bx, by, px, py) && key {
        py - y_dir * (PLAYER_SPEED * dt)
    } else {
        py
    };
    spec_clamp(moved, RACKET_HEIGHT_HALF as int, h - RACKET_HEIGHT_HALF)
}

/// Moves one paddle for one frame from the held key and clamps it to the
/// screen; the horizontal position never changes.
pub fn move_racket(
    pos: &mut Vec2,
    ball_pos: Vec2,
    key_pressed: bool,
    y_dir: i64,
    dt: i64,
    screen_h: i64,
)
    requires
        y_dir == 1 || y_dir == -1,
        0 <= dt <= DT_LIMIT,
        0 <= screen_h <= POS_LIMIT,
        -POS_LIMIT <= old(pos).x <= POS_LIMIT,
        -POS_LIMIT <= old(pos).y <= POS_LIMIT,
        -BALL_POS_LIMIT <= ball_pos.x <= BALL_POS_LIMIT,
        -BALL_POS_LIMIT <= ball_pos.y <= BALL_POS_LIMIT,
    ensures
        final(pos).x == old(pos).x,
        final(pos).y == spec_racket_step(
            old(pos).x as int,
            old(pos).y as int,
            ball_pos.x as int,
            ball_pos.y as int,
            key_pressed,
            y_dir as int,
            dt as int,
            screen_h as int,
        ),
        RACKET_HEIGHT <= screen_h ==> RACKET_HEIGHT_HALF <= final(pos).y <= screen_h
            - RACKET_HEIGHT_HALF,
{
    proof {
        lemma_paddle_dt_bound(dt as int);
        let step: int = PLAYER_SPEED * dt;
        assert(y_dir * step == step || y_dir * step == -step) by (nonlinear_arith)
            requires
                y_dir == 1 || y_dir == -1,
        ;
    }
    let intersects_player = intersects(ball_pos, *pos);
    if !intersects_player && key_pressed {
        pos.y = pos.y - y_dir * (PLAYER_SPEED * dt);
    }
    let mut y: i64 = pos.y;
    clamp(&mut y, RACKET_HEIGHT_HALF, screen_h - RACKET_HEIGHT_HALF);
    pos.y = y;
}

/// Sets each component of `vec` to the given magnitude with an independently
/// drawn random sign.
pub fn randomize_vec(vec: &mut Vec2, x: i64, y: i64)
    requires
        x > i64::MIN,
        y > i64::MIN,
    ensures
        final(vec).x == x || final(vec).x == -x,
        final(vec).y == y || final(vec).y == -y,
{
    let heads_x = coin_flip();
    vec.x = if heads_x {
        x
    } else {
        -x
    };
    let heads_y = coin_flip();
    vec.y = if heads_y {
        y
    } else {
        -y
    };
}

/// Relies on `rand::random::<bool>`: a boolean drawn uniformly from the
/// thread-local generator. Nothing is promised of the value drawn.
#[verifier::external_body]
fn coin_flip() -> bool {
    rand::random::<bool>()
}

/// Advances the ball by one frame. When the ball's centre leaves the screen on
/// the left or right, the ball is recentred, its velocity is redrawn with
/// magnitude `BALL_VEL` on each axis and a random sign, and the result reports
/// a point for the opposing player; otherwise the result is `(false, false)`
/// and the ball follows `spec_ball_step`.
pub fn move_ball(
    pos: &mut Vec2,
    vel: &mut Vec2,
    pos1: Vec2,
    pos2: Vec2,
    ball_was_inside_racket: &mut bool,
    dt: i64,
    screen_w: i64,
    screen_h: i64,
) -> (r: (bool, bool))
    requires
        0 <= dt <= DT_LIMIT,
        0 <= screen_w <= POS_LIMIT,
        0 <= screen_h <= POS_LIMIT,
        -BALL_POS_LIMIT <= old(pos).x <= BALL_POS_LIMIT,
        -BALL_POS_LIMIT <= old(pos).y <= BALL_POS_LIMIT,
        -VEL_LIMIT <= old(vel).x <= VEL_LIMIT,
        -VEL_LIMIT <= old(vel).y <= VEL_LIMIT,
        -POS_LIMIT <= pos1.x <= POS_LIMIT,
        -POS_LIMIT <= pos1.y <= POS_LIMIT,
        -POS_LIMIT <= pos2.x <= POS_LIMIT,
        -POS_LIMIT <= pos2.y <= POS_LIMIT,
    ensures
        ({
            let f = (BallFrame {
                px: old(pos).x as int,
                py: old(pos).y as int,
                vx: old(vel).x as int,
                vy: old(vel).y as int,
                inside: *old(ball_was_inside_racket),
            });
            &&& spec_scores_left(f, dt as int) ==> {
                &&& r == (false, true)
                &&& final(pos).x == screen_w as int / 2
                &&& final(pos).y == screen_h as int / 2
                &&& (final(vel).x == BALL_VEL || final(vel).x == -BALL_VEL)
                &&& (final(vel).y == BALL_VEL || final(vel).y == -BALL_VEL)
                &&& *final(ball_was_inside_racket) == *old(ball_was_inside_racket)
            }
            &&& !spec_scores_left(f, dt as int) && spec_scores_right(f, dt as int, screen_w as int)
                ==> {
                &&& r == (true, false)
                &&& final(pos).x == screen_w as int / 2
                &&& final(pos).y == screen_h as int / 2
                &&& (final(vel).x == BALL_VEL || final(vel).x == -BALL_VEL)
                &&& (final(vel).y == BALL_VEL || final(vel).y == -BALL_VEL)
                &&& *final(ball_was_inside_racket) == *old(ball_was_inside_racket)
            }
            &&& !spec_scores_left(f, dt as int) && !spec_scores_right(
                f,
                dt as int,
                screen_w as int,
            ) ==> {
                let s = spec_ball_step(
                    f,
                    pos1.x as int,
                    pos1.y as int,
                    pos2.x as int,
                    pos2.y as int,
                    dt as int,
                    screen_w as int,
                    screen_h as int,
                );
                &&& r == (false, false)
                &&& final(pos).x == s.px
                &&& final(pos).y == s.py
                &&& final(vel).x == s.vx
                &&& final(vel).y == s.vy
                &&& *final(ball_was_inside_racket) == s.inside
            }
        }),
{
    proof {
        lemma_vel_dt_bound(vel.x as int, dt as int);
        lemma_vel_dt_bound(vel.y as int, dt as int);
    }
    pos.x = pos.x + vel.x * dt;
    pos.y = pos.y + vel.y * dt;

    if pos.x < 0 {
        pos.x = screen_w / 2;
        pos.y = screen_h / 2;
        randomize_vec(vel, BALL_VEL, BALL_VEL);
        return (false, true);
    } else if pos.x > screen_w {
        pos.x = screen_w / 2;
        pos.y = screen_h / 2;
        randomize_vec(vel, BALL_VEL, BALL_VEL);
        return (true, false);
    }
    if pos.y <= BALL_SIZE_HALF {
        vel.y = abs_i64(vel.y);
    } else if pos.y >= screen_h - BALL_SIZE_HALF {
        vel.y = -abs_i64(vel.y);
    }
    let intersects_player_1 = intersects(*pos, pos1);
    let intersects_player_2 = intersects(*pos, pos2);

    if !*ball_was_inside_racket {
        if intersects_player_1 {
            let intersects_player_1_front = (pos.y - BALL_SIZE_HALF > pos1.y - RACKET_HEIGHT_HALF
                && pos.y + BALL_SIZE_HALF < pos1.y + RACKET_HEIGHT_HALF) || pos.x - BALL_SIZE_HALF
                > pos1.x;
            if intersects_player_1_front {
                vel.x = abs_i64(vel.x);
            } else {
                vel.y = -vel.y;
            }
        }
        if intersects_player_2 {
            let intersects_player_2_front = (pos.y - BALL_SIZE_HALF > pos2.y - RACKET_HEIGHT_HALF
                && pos.y + BALL_SIZE_HALF < pos2.y + RACKET_HEIGHT_HALF) || pos.x + BALL_SIZE_HALF
                < pos2.x;
            if intersects_player_2_front {
                vel.x = -abs_i64(vel.x);
            } else {
                vel.y = -vel.y;
            }
        }
    }
    if !intersects_player_1 && !intersects_player_2 {
        *ball_was_inside_racket = false;
    } else {
        *ball_was_inside_racket = true;
        if vel.x > 0 {
            vel.x = vel.x + BALL_ACC;
        } else {
            vel.x = vel.x - BALL_ACC;
        }
        if vel.y > 0 {
            vel.y = vel.y + BALL_ACC;
        } else {
            vel.y = vel.y - BALL_ACC;
        }
    }
    (false, false)
}

/// Law: for any input value, the clamped result lies within the clamp bounds,
/// provided the bounds are ordered; a paddle is therefore always fully on
/// screen after its frame ends.
pub proof fn lemma_clamp_in_range(v: int, low: int, high: int)
    requires
        low <= high,
    ensures
        low <= spec_clamp(v, low, high) <= high,
{
}

/// `n` frames of the non-scoring ball step with the paddles held still.
pub open spec fn spec_ball_iter(
    f: BallFrame,
    p1x: int,
    p1y: int,
    p2x: int,
    p2y: int,
    dt: int,
    w: int,
    h: int,
    n: nat,
) -> BallFrame
    decreases n,
{
    if n == 0 {
        f
    } else {
        spec_ball_step(
            spec_ball_iter(f, p1x, p1y, p2x, p2y, dt, w, h, (n - 1) as nat),
            p1x,
            p1y,
            p2x,
            p2y,
            dt,
            w,
            h,
        )
    }
}

/// Law: a frame that ends in paddle contact raises the magnitude of each
/// velocity component by exactly `BALL_ACC`, and a frame that ends without
/// contact leaves both magnitudes unchanged.
pub proof fn lemma_contact_accelerates(
    f: BallFrame,
    p1x: int,
    p1y: int,
    p2x: int,
    p2y: int,
    dt: int,
    w: int,
    h: int,
)
    ensures
        ({
            let s = spec_ball_step(f, p1x, p1y, p2x, p2y, dt, w, h);
            &&& s.inside ==> spec_abs(s.vx) == spec_abs(f.vx) + BALL_ACC && spec_abs(s.vy)
                == spec_abs(f.vy) + BALL_ACC
            &&& !s.inside ==> spec_abs(s.vx) == spec_abs(f.vx) && spec_abs(s.vy) == spec_abs(f.vy)
        }),
{
}

/// Law: across `n` consecutive frames of sustained paddle contact, with the
/// paddles held still, the magnitude of each velocity component grows by
/// exactly `BALL_ACC` every frame, hence monotonically.
pub proof fn lemma_sustained_contact(
    f: BallFrame,
    p1x: int,
    p1y: int,
    p2x: int,
    p2y: int,
    dt: int,
    w: int,
    h: int,
    n: nat,
)
    requires
        forall|k: nat|
            1 <= k <= n ==> (#[trigger] spec_ball_iter(f, p1x, p1y, p2x, p2y, dt, w, h, k)).inside,
    ensures
        forall|k: nat|
            1 <= k <= n ==> spec_abs(
                (#[trigger] spec_ball_iter(f, p1x, p1y, p2x, p2y, dt, w, h, k)).vx,
            ) == spec_abs(spec_ball_iter(f, p1x, p1y, p2x, p2y, dt, w, h, (k - 1) as nat).vx)
                + BALL_ACC && spec_abs(spec_ball_iter(f, p1x, p1y, p2x, p2y, dt, w, h, k).vy)
                == spec_abs(spec_ball_iter(f, p1x, p1y, p2x, p2y, dt, w, h, (k - 1) as nat).vy)
                + BALL_ACC,
        spec_abs(spec_ball_iter(f, p1x, p1y, p2x, p2y, dt, w, h, n).vx) == spec_abs(f.vx) + n
            * BALL_ACC,
        spec_abs(spec_ball_iter(f, p1x, p1y, p2x, p2y, dt, w, h, n).vy) == spec_abs(f.vy) + n
            * BALL_ACC,
    decreases n,
{
    if n > 0 {
        lemma_sustained_contact(f, p1x, p1y, p2x, p2y, dt, w, h, (n - 1) as nat);
        lemma_contact_accelerates(
            spec_ball_iter(f, p1x, p1y, p2x, p2y, dt, w, h, (n - 1) as nat),
            p1x,
            p1y,
            p2x,
            p2y,
            dt,
            w,
            h,
        );
        assert(spec_ball_iter(f, p1x, p1y, p2x, p2y, dt, w, h, n) == spec_ball_step(
            spec_ball_iter(f, p1x, p1y, p2x, p2y, dt, w, h, (n - 1) as nat),
            p1x,
            p1y,
            p2x,
            p2y,
            dt,
            w,
            h,
        ));
    }
}

/// The whole Pong match: both paddles, the ball, both score counters, and the
/// contact flag that suppresses a second reflection within one contact
/// episode.
pub struct PongState {
    pub player_1_pos: Vec2,
    pub player_2_pos: Vec2,
    pub ball_pos: Vec2,
    pub ball_vel: Vec2,
    pub player_1_score: i32,
    pub player_2_score: i32,
    pub ball_is_inside_racket: bool,
}

impl PongState {
    /// Both paddles stand within the coordinate range the simulation accepts
    /// and the score counters are non-negative.
    pub open spec fn wf(self) -> bool {
        &&& -POS_LIMIT <= self.player_1_pos.x <= POS_LIMIT
        &&& -POS_LIMIT <= self.player_1_pos.y <= POS_LIMIT
        &&& -POS_LIMIT <= self.player_2_pos.x <= POS_LIMIT
        &&& -POS_LIMIT <= self.player_2_pos.y <= POS_LIMIT
        &&& 0 <= self.player_1_score
        &&& 0 <= self.player_2_score
    }

    /// A fresh match on a `screen_w` by `screen_h` field: paddles centred
    /// vertically and inset by their padding, ball at the centre with a
    /// random-sign velocity of magnitude `BALL_VEL` per axis, both scores
    /// zero.
    pub fn new(screen_w: i64, screen_h: i64) -> (s: PongState)
        requires
            0 <= screen_w <= POS_LIMIT,
            0 <= screen_h <= POS_LIMIT,
        ensures
            s.wf(),
            s.player_1_pos.x == RACKET_WIDTH_HALF + RACKET_PADDING,
            s.player_1_pos.y == screen_h as int / 2,
            s.player_2_pos.x == screen_w - RACKET_WIDTH_HALF - RACKET_PADDING,
            s.player_2_pos.y == screen_h as int / 2,
            s.ball_pos.x == screen_w as int / 2,
            s.ball_pos.y == screen_h as int / 2,
            s.ball_vel.x == BALL_VEL || s.ball_vel.x == -BALL_VEL,
            s.ball_vel.y == BALL_VEL || s.ball_vel.y == -BALL_VEL,
            s.player_1_score == 0,
            s.player_2_score == 0,
            !s.ball_is_inside_racket,
    {
        let screen_w_half: i64 = screen_w / 2;
        let screen_h_half: i64 = screen_h / 2;
        let mut ball_vel = Vec2 { x: 0, y: 0 };
        randomize_vec(&mut ball_vel, BALL_VEL, BALL_VEL);
        PongState {
            player_1_pos: Vec2 { x: RACKET_WIDTH_HALF + RACKET_PADDING, y: screen_h_half },
            player_2_pos: Vec2 {
                x: screen_w - RACKET_WIDTH_HALF - RACKET_PADDING,
                y: screen_h_half,
            },
            ball_pos: Vec2 { x: screen_w_half, y: screen_h_half },
            ball_vel,
            player_1_score: 0,
            player_2_score: 0,
            ball_is_inside_racket: false,
        }
    }

    /// One frame of the match: each paddle moves from its two keys and is
    /// clamped to the screen, the ball advances by `spec_ball_step` against
    /// the moved paddles, and when the ball leaves the field on the left or
    /// right it is recentred with a fresh random-sign velocity and the
    /// opposing player's score rises by one. Scores never decrease.
    pub fn update(
        &mut self,
        key_w: bool,
        key_s: bool,
        key_up: bool,
        key_down: bool,
        dt: i64,
        screen_w: i64,
        screen_h: i64,
    )
        requires
            old(self).wf(),
            0 <= dt <= DT_LIMIT,
            0 <= screen_w <= POS_LIMIT,
            0 <= screen_h <= POS_LIMIT,
            -BALL_POS_LIMIT <= old(self).ball_pos.x <= BALL_POS_LIMIT,
            -BALL_POS_LIMIT <= old(self).ball_pos.y <= BALL_POS_LIMIT,
            -VEL_LIMIT <= old(self).ball_vel.x <= VEL_LIMIT,
            -VEL_LIMIT <= old(self).ball_vel.y <= VEL_LIMIT,
            old(self).player_1_score < i32::MAX,
            old(self).player_2_score < i32::MAX,
        ensures
            final(self).wf(),
            final(self).player_1_score >= old(self).player_1_score,
            final(self).player_2_score >= old(self).player_2_score,
            -VEL_LIMIT - BALL_ACC <= final(self).ball_vel.x <= VEL_LIMIT + BALL_ACC,
            -VEL_LIMIT - BALL_ACC <= final(self).ball_vel.y <= VEL_LIMIT + BALL_ACC,
            ({
                let bp = old(self).ball_pos;
                let p1x: int = old(self).player_1_pos.x as int;
                let p2x: int = old(self).player_2_pos.x as int;
                let p1y: int = spec_racket_step(
                    p1x,
                    spec_racket_step(
                        p1x,
                        old(self).player_1_pos.y as int,
                        bp.x as int,
                        bp.y as int,
                        key_w,
                        1,
                        dt as int,
                        screen_h as int,
                    ),
                    bp.x as int,
                    bp.y as int,
                    key_s,
                    -1,
                    dt as int,
                    screen_h as int,
                );
                let p2y: int = spec_racket_step(
                    p2x,
                    spec_racket_step(
                        p2x,
                        old(self).player_2_pos.y as int,
                        bp.x as int,
                        bp.y as int,
                        key_up,
                        1,
                        dt as int,
                        screen_h as int,
                    ),
                    bp.x as int,
                    bp.y as int,
                    key_down,
                    -1,
                    dt as int,
                    screen_h as int,
                );
                let f = (BallFrame {
                    px: bp.x as int,
                    py: bp.y as int,
                    vx: old(self).ball_vel.x as int,
                    vy: old(self).ball_vel.y as int,
                    inside: old(self).ball_is_inside_racket,
                });
                let left = spec_scores_left(f, dt as int);
                let right = spec_scores_right(f, dt as int, screen_w as int);
                &&& final(self).player_1_pos.x == p1x && final(self).player_1_pos.y == p1y
                &&& final(self).player_2_pos.x == p2x && final(self).player_2_pos.y == p2y
                &&& final(self).player_2_score == old(self).player_2_score + (if left {
                    1int
                } else {
                    0int
                })
                &&& final(self).player_1_score == old(self).player_1_score + (if !left && right {
                    1int
                } else {
                    0int
                })
                &&& (left || (!left && right)) ==> {
                    &&& final(self).ball_pos.x == screen_w as int / 2
                    &&& final(self).ball_pos.y == screen_h as int / 2
                    &&& (final(self).ball_vel.x == BALL_VEL || final(self).ball_vel.x
                        == -BALL_VEL)
                    &&& (final(self).ball_vel.y == BALL_VEL || final(self).ball_vel.y
                        == -BALL_VEL)
                    &&& final(self).ball_is_inside_racket == old(self).ball_is_inside_racket
                }
                &&& (!left && !right) ==> {
                    let s = spec_ball_step(
                        f,
                        p1x,
                        p1y,
                        p2x,
                        p2y,
                        dt as int,
                        screen_w as int,
                        screen_h as int,
                    );
                    &&& final(self).ball_pos.x == s.px
                    &&& final(self).ball_pos.y == s.py
                    &&& final(self).ball_vel.x == s.vx
                    &&& final(self).ball_vel.y == s.vy
                    &&& final(self).ball_is_inside_racket == s.inside
                }
            }),
    {
        move_racket(&mut self.player_1_pos, self.ball_pos, key_w, 1, dt, screen_h);
        move_racket(&mut self.player_1_pos, self.ball_pos, key_s, -1, dt, screen_h);
        move_racket(&mut self.player_2_pos, self.ball_pos, key_up, 1, dt, screen_h);
        move_racket(&mut self.player_2_pos, self.ball_pos, key_down, -1, dt, screen_h);

        let mut flag: bool = self.ball_is_inside_racket;
        let (player_1_scored, player_2_scored) = move_ball(
            &mut self.ball_pos,
            &mut self.ball_vel,
            self.player_1_pos,
            self.player_2_pos,
            &mut flag,
            dt,
            screen_w,
            screen_h,
        );
        self.ball_is_inside_racket = flag;
        if player_1_scored {
            self.player_1_score = self.player_1_score + 1;
        }
        if player_2_scored {
            self.player_2_score = self.player_2_score + 1;
        }
    }
}

} // verus!
