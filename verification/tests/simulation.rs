use arcade_core::engine::{
    projection_matrix, rotation_x, rotation_z, triangle_to_points, triangle_visible,
    multiply_matrix_vector, CubeState, ScreenTriangle, Triangle, Vec3, Point2,
};
use arcade_core::fixed::FP_ONE;
use arcade_core::pong::{
    clamp, intersects, move_ball, move_racket, randomize_vec, PongState, Vec2, BALL_VEL,
};

#[test]
fn clamp_forces_value_into_bounds() {
    let mut v: i64 = 700_000;
    clamp(&mut v, 50_000, 550_000);
    assert_eq!(v, 550_000);
    let mut v: i64 = -3;
    clamp(&mut v, 50_000, 550_000);
    assert_eq!(v, 50_000);
    let mut v: i64 = 123_456;
    clamp(&mut v, 50_000, 550_000);
    assert_eq!(v, 123_456);
}

#[test]
fn racket_stays_on_screen_for_any_displacement() {
    // Paddle driven hard past the top edge: one second at full speed.
    let mut pos = Vec2 { x: 20_000, y: 60_000 };
    let ball = Vec2 { x: 400_000, y: 300_000 };
    move_racket(&mut pos, ball, true, 1, 1_000, 600_000);
    assert_eq!(pos.y, 50_000);
    // And past the bottom edge.
    let mut pos = Vec2 { x: 20_000, y: 540_000 };
    move_racket(&mut pos, ball, true, -1, 1_000, 600_000);
    assert_eq!(pos.y, 550_000);
    assert_eq!(pos.x, 20_000);
}

#[test]
fn ball_exit_left_scores_for_player_two() {
    let mut pos = Vec2 { x: 100_000, y: 250_000 };
    let mut vel = Vec2 { x: -300, y: 40 };
    let mut inside = false;
    let p1 = Vec2 { x: 20_000, y: 300_000 };
    let p2 = Vec2 { x: 780_000, y: 300_000 };
    let r = move_ball(&mut pos, &mut vel, p1, p2, &mut inside, 1_000, 800_000, 600_000);
    assert_eq!(r, (false, true));
    assert_eq!(pos, Vec2 { x: 400_000, y: 300_000 });
    assert_eq!(vel.x.abs(), BALL_VEL);
    assert_eq!(vel.y.abs(), BALL_VEL);
    assert!(!inside);
}

#[test]
fn scores_update_only_for_the_opposing_player() {
    let mut state = PongState::new(800_000, 600_000);
    state.ball_pos = Vec2 { x: 1_000, y: 300_000 };
    state.ball_vel = Vec2 { x: -300, y: 0 };
    state.update(false, false, false, false, 1_000, 800_000, 600_000);
    assert_eq!(state.player_1_score, 0);
    assert_eq!(state.player_2_score, 1);
    assert_eq!(state.ball_pos, Vec2 { x: 400_000, y: 300_000 });
}

#[test]
fn front_face_contact_reverses_horizontal_velocity_only() {
    // Paddle centred at (100, 300) in pixels; the ball crosses its front
    // boundary moving left with a small upward drift.
    let mut pos = Vec2 { x: 126_000, y: 300_000 };
    let mut vel = Vec2 { x: -300, y: 50 };
    let mut inside = false;
    let p1 = Vec2 { x: 100_000, y: 300_000 };
    let p2 = Vec2 { x: 780_000, y: 300_000 };
    let r = move_ball(&mut pos, &mut vel, p1, p2, &mut inside, 20, 800_000, 600_000);
    assert_eq!(r, (false, false));
    assert_eq!(pos, Vec2 { x: 120_000, y: 301_000 });
    // Reflected to +300, then one frame of contact acceleration.
    assert_eq!(vel, Vec2 { x: 330, y: 80 });
    assert!(inside);
}

#[test]
fn sustained_contact_accelerates_every_frame() {
    let p1 = Vec2 { x: 100_000, y: 300_000 };
    let p2 = Vec2 { x: 780_000, y: 300_000 };
    let mut pos = Vec2 { x: 100_000, y: 300_000 };
    let mut vel = Vec2 { x: 100, y: 50 };
    let mut inside = false;
    move_ball(&mut pos, &mut vel, p1, p2, &mut inside, 0, 800_000, 600_000);
    assert_eq!(vel, Vec2 { x: 130, y: 80 });
    assert!(inside);
    move_ball(&mut pos, &mut vel, p1, p2, &mut inside, 0, 800_000, 600_000);
    assert_eq!(vel, Vec2 { x: 160, y: 110 });
    move_ball(&mut pos, &mut vel, p1, p2, &mut inside, 0, 800_000, 600_000);
    assert_eq!(vel, Vec2 { x: 190, y: 140 });
}

#[test]
fn randomize_vec_keeps_magnitudes() {
    let mut v = Vec2 { x: 0, y: 0 };
    randomize_vec(&mut v, 300, 300);
    assert_eq!(v.x.abs(), 300);
    assert_eq!(v.y.abs(), 300);
}

#[test]
fn intersects_matches_aabb_overlap() {
    let racket = Vec2 { x: 100_000, y: 300_000 };
    assert!(intersects(Vec2 { x: 120_000, y: 300_000 }, racket));
    assert!(!intersects(Vec2 { x: 200_000, y: 300_000 }, racket));
    assert!(!intersects(Vec2 { x: 100_000, y: 400_000 }, racket));
}

#[test]
fn rotation_by_quarter_turn_moves_x_axis_to_y() {
    let m = rotation_z(FP_ONE, 0);
    let v = Vec3 { x: FP_ONE, y: 0, z: 0 };
    let r = multiply_matrix_vector(&v, &m);
    assert_eq!((r.x, r.y, r.z), (0, FP_ONE, 0));
}

#[test]
fn identity_rotation_keeps_points() {
    let mz = rotation_z(0, FP_ONE);
    let mx = rotation_x(0, FP_ONE);
    let v = Vec3 { x: FP_ONE, y: 12_345, z: -9_876 };
    let r = multiply_matrix_vector(&v, &mz);
    assert_eq!((r.x, r.y, r.z), (v.x, v.y, v.z));
    let r = multiply_matrix_vector(&v, &mx);
    assert_eq!((r.x, r.y, r.z), (v.x, v.y, v.z));
}

#[test]
fn back_face_is_culled_front_face_is_kept() {
    let cam = Vec3 { x: 0, y: 0, z: 0 };
    let front = Triangle {
        p0: Vec3 { x: 0, y: 0, z: 2 * FP_ONE },
        p1: Vec3 { x: 0, y: FP_ONE, z: 2 * FP_ONE },
        p2: Vec3 { x: FP_ONE, y: FP_ONE, z: 2 * FP_ONE },
    };
    assert!(triangle_visible(&front, &cam));
    let back = Triangle { p0: front.p1, p1: front.p0, p2: front.p2 };
    assert!(!triangle_visible(&back, &cam));
}

#[test]
fn projection_matrix_entries() {
    let m = projection_matrix(49_152, FP_ONE, 6_554, 65_536_000);
    assert_eq!(m.m00, 49_152);
    assert_eq!(m.m11, FP_ONE);
    assert_eq!(m.m22, 65_542);
    assert_eq!(m.m32, -6_554);
    assert_eq!(m.m23, FP_ONE);
    assert_eq!(m.m33, 0);
}

#[test]
fn fresh_cube_frame_shows_only_the_front_face() {
    // An 800 by 600 pixel screen in fixed point, unit field-of-view factor.
    let state = CubeState::new(52_428_800, 39_321_600, FP_ONE);
    assert_eq!(state.mesh.len(), 12);
    assert!(!state.paused);
    let frame = state.frame_points(26_214_400, 19_660_800);
    // At angle zero only the two triangles of the face turned to the camera
    // survive culling.
    assert_eq!(frame.len(), 2);
}

#[test]
fn pause_and_resume_control_the_angle() {
    let mut state = CubeState::new(52_428_800, 39_321_600, FP_ONE);
    let theta0 = state.f_theta;
    state.update(true, false, 0, FP_ONE, 0, FP_ONE);
    assert!(state.paused);
    assert_eq!(state.f_theta, theta0);
    state.update(false, true, 1_311, 65_523, 655, 65_533);
    assert!(!state.paused);
    assert!(state.f_theta > theta0);
    assert_eq!(state.m_rotate_z.m01, 1_311);
    assert_eq!(state.m_rotate_z.m10, -1_311);
}

#[test]
fn outline_closes_the_triangle() {
    let st = ScreenTriangle {
        a: Point2 { x: 1, y: 2 },
        b: Point2 { x: 3, y: 4 },
        c: Point2 { x: 5, y: 6 },
    };
    let o = triangle_to_points(&st);
    assert_eq!(o.p0, st.a);
    assert_eq!(o.p1, st.b);
    assert_eq!(o.p2, st.c);
    assert_eq!(o.p3, st.a);
}

#[test]
fn new_match_starts_centred_with_fixed_speed() {
    let s = PongState::new(800_000, 600_000);
    assert_eq!(s.player_1_pos, Vec2 { x: 20_000, y: 300_000 });
    assert_eq!(s.player_2_pos, Vec2 { x: 780_000, y: 300_000 });
    assert_eq!(s.ball_pos, Vec2 { x: 400_000, y: 300_000 });
    assert_eq!(s.ball_vel.x.abs(), BALL_VEL);
    assert_eq!(s.ball_vel.y.abs(), BALL_VEL);
    assert_eq!(s.player_1_score, 0);
    assert_eq!(s.player_2_score, 0);
}
