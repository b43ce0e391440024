use player_controller::fixed::{floor_sqrt, scale_down_exec, scale_up_exec, UNIT};
use player_controller::player::{
    MAX_FRAME_MICROS, MIN_BOTTOM_ANGLE, MIN_TOP_ANGLE, MOVE_DEADZONE,
};
use player_controller::transform::{PI_MICRO, TAU_MICRO};
use player_controller::{
    movement_direction, Basis, CursorChange, Label, MoveActions, Player, RayHit, Transform, Vec3,
};
use rapier3d::prelude::{ColliderHandle, RigidBodyHandle};

const FRAME: i64 = 16_000;

fn collider() -> ColliderHandle {
    ColliderHandle::from_raw_parts(0, 0)
}

fn no_actions() -> MoveActions {
    MoveActions { forward: false, back: false, right: false, left: false, up: false, down: false }
}

fn facing_minus_z() -> Basis {
    Basis {
        forward: Vec3::new(0, 0, -UNIT),
        right: Vec3::new(UNIT, 0, 0),
        up: Vec3::new(0, UNIT, 0),
    }
}

fn level_player() -> (Player, Transform) {
    Player::spawn(Vec3::new(0, 0, 5 * UNIT), 0, PI_MICRO / 2, collider())
}

fn controlled_player() -> (Player, Transform) {
    let (mut p, t) = level_player();
    assert_eq!(p.toggle_control(true), CursorChange::Capture);
    (p, t)
}

fn length(v: Vec3) -> f64 {
    ((v.x as f64).powi(2) + (v.y as f64).powi(2) + (v.z as f64).powi(2)).sqrt()
}

#[test]
fn scale_up_rounds_magnitude_up() {
    assert_eq!(scale_up_exec(10, 1, 3), 4);
    assert_eq!(scale_up_exec(-10, 1, 3), -4);
    assert_eq!(scale_up_exec(9, 1, 3), 3);
    assert_eq!(scale_up_exec(0, 1, 3), 0);
}

#[test]
fn scale_down_rounds_magnitude_down() {
    assert_eq!(scale_down_exec(10, 1, 3), 3);
    assert_eq!(scale_down_exec(-10, 1, 3), -3);
    assert_eq!(scale_down_exec(2, 1_000_000, 3), 666_666);
}

#[test]
fn floor_sqrt_values() {
    assert_eq!(floor_sqrt(0), 0);
    assert_eq!(floor_sqrt(15), 3);
    assert_eq!(floor_sqrt(16), 4);
    assert_eq!(floor_sqrt(2_000_000_000_000), 1_414_213);
    assert_eq!(floor_sqrt(u64::MAX), 4_294_967_295);
}

#[test]
fn yaw_wraps_below_zero() {
    let mut t = Transform::new(Vec3::zeros(), 100, PI_MICRO / 2);
    t.rotate_yaw(-300);
    assert_eq!(t.yaw, TAU_MICRO - 200);
    t.rotate_yaw(300);
    assert_eq!(t.yaw, 100);
    t.rotate_yaw(-100);
    assert_eq!(t.yaw, 0);
}

#[test]
fn spawn_starts_at_rest_out_of_control() {
    let (p, t) = level_player();
    assert!(!p.controlled());
    assert_eq!(p.look_at_point(), None);
    assert_eq!(p.look_at_body(), None);
    assert_eq!(p.collider(), collider());
    assert_eq!(t.position(), Vec3::new(0, 0, 5 * UNIT));
}

#[test]
fn controlled_update_turns_by_a_share_of_pointer_motion() {
    let (mut p, mut t) = controlled_player();
    assert!(p.update(FRAME, &mut t, -5, 10));
    // 10 px over 16 ms is a pending pitch change of 160_000 µrad, of which
    // 30 * 0.016 = 48 % is applied.
    assert_eq!(t.pitch, PI_MICRO / 2 + 76_800);
    assert_eq!(t.yaw, TAU_MICRO - 38_400);
    assert_eq!(t.position(), Vec3::new(0, 0, 5 * UNIT));
    // The rest is applied on the following frames.
    assert!(p.update(FRAME, &mut t, 0, 0));
    assert_eq!(t.pitch, PI_MICRO / 2 + 76_800 + 39_936);
}

#[test]
fn pitch_never_crosses_the_poles() {
    let (mut p, mut t) = controlled_player();
    for _ in 0..200 {
        p.update(MAX_FRAME_MICROS, &mut t, 0, i32::MAX);
        assert!(t.pitch >= MIN_TOP_ANGLE && t.pitch <= MIN_BOTTOM_ANGLE);
    }
    assert!(t.pitch > MIN_BOTTOM_ANGLE - 10);
    for _ in 0..200 {
        p.update(MAX_FRAME_MICROS, &mut t, i32::MIN, i32::MIN);
        assert!(t.pitch >= MIN_TOP_ANGLE && t.pitch <= MIN_BOTTOM_ANGLE);
    }
    assert!(t.pitch < MIN_TOP_ANGLE + 10);
}

#[test]
fn forward_and_right_give_a_diagonal_unit_direction() {
    let actions = MoveActions { forward: true, right: true, ..no_actions() };
    let d = movement_direction(&facing_minus_z(), &actions).unwrap();
    assert_eq!(d, Vec3::new(707_107, 0, -707_107));
    assert!((length(d) - UNIT as f64).abs() < 2.0);
}

#[test]
fn single_action_gives_its_basis_direction() {
    let actions = MoveActions { up: true, ..no_actions() };
    assert_eq!(movement_direction(&facing_minus_z(), &actions), Some(Vec3::new(0, UNIT, 0)));
}

#[test]
fn opposite_actions_cancel_into_the_dead_zone() {
    let actions = MoveActions { forward: true, back: true, ..no_actions() };
    assert_eq!(movement_direction(&facing_minus_z(), &actions), None);
    let tiny = Basis {
        forward: Vec3::new(MOVE_DEADZONE, 0, 0),
        right: Vec3::new(UNIT, 0, 0),
        up: Vec3::new(0, UNIT, 0),
    };
    let fwd = MoveActions { forward: true, ..no_actions() };
    assert_eq!(movement_direction(&tiny, &fwd), None);
    let just_over = Basis { forward: Vec3::new(MOVE_DEADZONE + 1, 0, 0), ..tiny };
    assert_eq!(movement_direction(&just_over, &fwd), Some(Vec3::new(UNIT, 0, 0)));
}

#[test]
fn zero_input_leaves_the_residual_unchanged() {
    let (mut p, mut t) = controlled_player();
    let actions = MoveActions { forward: true, ..no_actions() };
    p.update(FRAME, &mut t, 0, 0);
    let first = p.request_movement(FRAME, &facing_minus_z(), &actions);
    assert_eq!(first, Vec3::new(0, 0, -160_000));
    let cancel = MoveActions { left: true, right: true, ..no_actions() };
    let second = p.request_movement(FRAME, &facing_minus_z(), &cancel);
    assert_eq!(second, first);
}

#[test]
fn movement_moves_transform_and_collider_together() {
    let (mut p, mut t) = controlled_player();
    let actions = MoveActions { forward: true, right: true, ..no_actions() };
    assert!(p.update(FRAME, &mut t, 0, 0));
    let desired = p.request_movement(FRAME, &facing_minus_z(), &actions);
    assert_eq!(desired, Vec3::new(113_137, 0, -113_137));
    let confirmed = t.position();
    let collider_pos = p.apply_movement(FRAME, &mut t, desired, confirmed);
    assert_eq!(t.position(), Vec3::new(18_102, 0, 5 * UNIT - 18_102));
    assert_eq!(collider_pos, t.position());
    // The remainder is applied on the following frames.
    let again = p.request_movement(FRAME, &facing_minus_z(), &no_actions());
    assert_eq!(again, Vec3::new(95_035, 0, -95_035));
}

#[test]
fn blocked_movement_keeps_only_the_safe_part() {
    let (mut p, mut t) = controlled_player();
    let actions = MoveActions { forward: true, ..no_actions() };
    p.update(FRAME, &mut t, 0, 0);
    p.request_movement(FRAME, &facing_minus_z(), &actions);
    let confirmed = t.position();
    let collider_pos = p.apply_movement(FRAME, &mut t, Vec3::zeros(), confirmed);
    assert_eq!(t.position(), confirmed);
    assert_eq!(collider_pos, confirmed);
    assert_eq!(p.request_movement(FRAME, &facing_minus_z(), &no_actions()), Vec3::zeros());
}

#[test]
fn idle_residual_decays_geometrically() {
    let (mut p, mut t) = controlled_player();
    let actions = MoveActions { forward: true, ..no_actions() };
    let mut desired = p.request_movement(FRAME, &facing_minus_z(), &actions);
    let initial = desired.z.abs() as f64;
    let keep = 1.0 - 10.0 * (FRAME as f64) / 1e6;
    for k in 1..150 {
        let previous = desired;
        let confirmed = t.position();
        p.apply_movement(FRAME, &mut t, desired, confirmed);
        p.update(FRAME, &mut t, 0, 0);
        desired = p.request_movement(FRAME, &facing_minus_z(), &no_actions());
        // Exactly: |a_k| * 1_000_000 <= |a_(k-1)| * (1_000_000 - 160_000).
        assert!(desired.z.abs() * 1_000_000 <= previous.z.abs() * 840_000);
        assert!(desired.z.abs() as f64 <= initial * keep.powi(k) * (1.0 + 1e-9));
    }
    assert_eq!(desired, Vec3::zeros());
}

#[test]
fn idle_rotation_residual_decays_geometrically() {
    let (mut p, mut t) = controlled_player();
    p.update(FRAME, &mut t, 1_000, 0);
    let start = t.yaw;
    let mut last = t.yaw;
    for _ in 0..60 {
        p.update(FRAME, &mut t, 0, 0);
        last = t.yaw;
    }
    // 1000 px over 16 ms is 16 rad in all, less a whole number of turns.
    let total = 16_000_000 % TAU_MICRO;
    assert_eq!(last, total);
    assert!(start != last);
}

#[test]
fn toggling_twice_restores_uncontrolled_and_holds_still() {
    let (mut p, mut t) = level_player();
    assert_eq!(p.toggle_control(false), CursorChange::Keep);
    assert!(!p.controlled());
    assert_eq!(p.toggle_control(true), CursorChange::Capture);
    assert!(p.controlled());
    let actions = MoveActions { forward: true, ..no_actions() };
    p.update(FRAME, &mut t, 0, 0);
    assert_eq!(p.request_movement(FRAME, &facing_minus_z(), &actions), Vec3::new(0, 0, -160_000));
    assert_eq!(p.toggle_control(true), CursorChange::Release);
    assert!(!p.controlled());
    let before = t;
    assert!(!p.update(FRAME, &mut t, 40, 40));
    assert_eq!(t, before);
    assert_eq!(p.request_movement(FRAME, &facing_minus_z(), &no_actions()), Vec3::zeros());
}

#[test]
fn look_at_records_hit_and_clears_when_unobstructed() {
    let (mut p, _) = level_player();
    let body = RigidBodyHandle::from_raw_parts(3, 1);
    p.update_look_at(Some(RayHit { point: Vec3::new(0, 0, 500_000), body }));
    assert_eq!(p.look_at_point(), Some(Vec3::new(0, 0, 500_000)));
    assert_eq!(p.look_at_body(), Some(body));
    p.update_look_at(None);
    assert_eq!(p.look_at_point(), None);
    assert_eq!(p.look_at_body(), None);
}

#[test]
fn schedule_label_compares_equal() {
    assert_eq!(Label, Label.clone());
}
