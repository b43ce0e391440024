use vstd::prelude::*;

use crate::fixed::{
    abs, drain, floor_sqrt, floor_sqrt_of, lemma_coordinate_within_root,
    lemma_drain_contracts, lemma_floor_sqrt_of, lemma_scale_up_bounds, scale_down,
    scale_down_exec, scale_up, scale_up_exec, Vec3, MICROS_PER_SECOND, UNIT,
};
use crate::transform::{wrap_heading, Basis, Transform, PI_MICRO, WORLD_LIMIT};
use rapier3d::prelude::{ColliderHandle, RigidBodyHandle};

verus! {

/// Share of the pending translation applied per second.
pub const MOVE_SPEED: i64 = 10;

/// Share of the pending rotation applied per second.
pub const ROTATION_SPEED: i64 = 30;

/// The longest frame the controller accepts, in microseconds: within it
/// neither speed consumes more than the whole of a residual.
pub const MAX_FRAME_MICROS: i64 = 33_333;

/// The forward direction never comes closer than this to the world up axis.
pub const MIN_TOP_ANGLE: i64 = 100_000;

/// The forward direction never comes closer than `MIN_TOP_ANGLE` to the
/// world down axis.
pub const MIN_BOTTOM_ANGLE: i64 = PI_MICRO - 100_000;

/// A combined movement direction shorter than this is treated as no input.
pub const MOVE_DEADZONE: i64 = 10_000;

/// Bound on each coordinate of the translation residual between frames.
pub const ACC_LIMIT: i64 = 1_099_511_627_776;

/// Bound on the pending heading change between frames.
pub const TURN_ACC_LIMIT: i64 = 140_737_488_355_328;

/// The movement actions held down this frame.
#[derive(Clone, Copy, Debug, PartialEq, Eq, Structural)]
pub struct MoveActions {
    pub forward: bool,
    pub back: bool,
    pub right: bool,
    pub left: bool,
    pub up: bool,
    pub down: bool,
}

/// The nearest obstacle along a ray, with the body that owns it.
#[derive(Clone, Copy, Debug)]
pub struct RayHit {
    pub point: Vec3,
    pub body: RigidBodyHandle,
}

/// What the window has to do with the pointer after a frame.
#[derive(Clone, Copy, Debug, PartialEq, Eq, Structural)]
pub enum CursorChange {
    Keep,
    /// Capture the pointer and hide the cursor.
    Capture,
    /// Release the pointer and show the cursor.
    Release,
}

/// State of the character under player control.
#[derive(Clone, Copy, Debug)]
pub struct Player {
    look_at_pt: Option<Vec3>,
    look_at_body: Option<RigidBodyHandle>,
    collider: ColliderHandle,
    h_rot_acc: i64,
    v_rot_acc: i64,
    translation_acc: Vec3,
    controlled: bool,
}

/// The abstract state of a `Player`.
pub struct PlayerView {
    pub look_at_point: Option<Vec3>,
    pub look_at_body: Option<RigidBodyHandle>,
    pub collider: ColliderHandle,
    /// Heading change still to be applied.
    pub h_rot_acc: int,
    /// Pitch change still to be applied.
    pub v_rot_acc: int,
    /// Translation still to be applied.
    pub translation_acc: Vec3,
    pub controlled: bool,
}

impl PlayerView {
    pub open spec fn turns_bounded(self) -> bool {
        abs(self.h_rot_acc) <= TURN_ACC_LIMIT && abs(self.v_rot_acc) <= PI_MICRO
    }

    /// The residuals lie within their bounds.
    pub open spec fn wf(self) -> bool {
        self.turns_bounded() && self.translation_acc.bounded_by(ACC_LIMIT as int)
    }
}

impl View for Player {
    type V = PlayerView;

    closed spec fn view(&self) -> PlayerView {
        PlayerView {
            look_at_point: self.look_at_pt,
            look_at_body: self.look_at_body,
            collider: self.collider,
            h_rot_acc: self.h_rot_acc as int,
            v_rot_acc: self.v_rot_acc as int,
            translation_acc: self.translation_acc,
            controlled: self.controlled,
        }
    }
}

pub open spec fn valid_frame(dt: int) -> bool {
    0 <= dt <= MAX_FRAME_MICROS
}

/// Microseconds-weighted share of a turn residual applied in a frame of `dt`.
pub open spec fn turn_share(dt: int) -> int {
    ROTATION_SPEED * dt
}

/// Microseconds-weighted share of the translation residual applied in a
/// frame of `dt`.
pub open spec fn move_share(dt: int) -> int {
    MOVE_SPEED * dt
}

/// The switch of control on an edge of the toggle action.
pub open spec fn toggle_step(
    prev: PlayerView,
    activated: bool,
    next: PlayerView,
    change: CursorChange,
) -> bool {
    if activated {
        &&& next == PlayerView { controlled: !prev.controlled, ..prev }
        &&& change == if next.controlled {
            CursorChange::Capture
        } else {
            CursorChange::Release
        }
    } else {
        next == prev && change == CursorChange::Keep
    }
}

/// The pending pitch change, cut so that the pitch it leads to stays
/// between `MIN_TOP_ANGLE` and `MIN_BOTTOM_ANGLE`.
pub open spec fn clamp_pitch_turn(pitch: int, pending: int) -> int {
    if pitch + pending <= MIN_TOP_ANGLE {
        MIN_TOP_ANGLE - pitch
    } else if pitch + pending >= MIN_BOTTOM_ANGLE {
        MIN_BOTTOM_ANGLE - pitch
    } else {
        pending
    }
}

/// One rotation step with pointer motion `(dx, dy)` over a frame of `dt`:
/// the motion joins the residuals, the pitch residual is clamped, and the
/// share `turn_share(dt)` of each residual turns the transform (heading
/// first, about the world vertical axis, then pitch, about the local
/// horizontal axis).
pub open spec fn rotation_step(
    prev: PlayerView,
    t0: Transform,
    next: PlayerView,
    t1: Transform,
    dt: int,
    dx: int,
    dy: int,
) -> bool {
    let pv = clamp_pitch_turn(t0.pitch as int, prev.v_rot_acc + dy * dt);
    let ph = prev.h_rot_acc + dx * dt;
    let s = turn_share(dt);
    &&& next == PlayerView {
        h_rot_acc: drain(ph, s, MICROS_PER_SECOND as int),
        v_rot_acc: drain(pv, s, MICROS_PER_SECOND as int),
        ..prev
    }
    &&& t1.yaw == wrap_heading(t0.yaw + scale_up(ph, s, MICROS_PER_SECOND as int))
    &&& t1.pitch == t0.pitch + scale_up(pv, s, MICROS_PER_SECOND as int)
    &&& t1.position == t0.position
}

/// The first phase of a frame: a controlled player turns; a player out of
/// control drops its pending translation and keeps its transform.
pub open spec fn update_step(
    prev: PlayerView,
    t0: Transform,
    next: PlayerView,
    t1: Transform,
    dt: int,
    dx: int,
    dy: int,
) -> bool {
    if prev.controlled {
        rotation_step(prev, t0, next, t1, dt, dx, dy)
    } else {
        next == PlayerView { translation_acc: Vec3 { x: 0, y: 0, z: 0 }, ..prev } && t1 == t0
    }
}

proof fn lemma_pointer_motion_bounds(a: int, dt: int)
    requires
        abs(a) <= 0x8000_0000,
        valid_frame(dt),
    ensures
        abs(a * dt) <= 0x8000_0000 * dt,
        abs(a * dt) <= 0x8000_0000 * MAX_FRAME_MICROS,
{
    assert(abs(a * dt) <= 0x8000_0000 * dt) by (nonlinear_arith)
        requires
            abs(a) <= 0x8000_0000,
            0 <= dt,
    ;
    assert(0x8000_0000 * dt <= 0x8000_0000 * MAX_FRAME_MICROS) by (nonlinear_arith)
        requires
            dt <= MAX_FRAME_MICROS,
    ;
}

/// The heading residual stays within `TURN_ACC_LIMIT`: what a frame adds is
/// at most what the frame drains from a residual at the limit.
proof fn lemma_turn_residual_bounded(h: int, dx: int, dt: int)
    requires
        abs(h) <= TURN_ACC_LIMIT,
        abs(dx) <= 0x8000_0000,
        valid_frame(dt),
    ensures
        abs(drain(h + dx * dt, turn_share(dt), MICROS_PER_SECOND as int)) <= TURN_ACC_LIMIT,
{
    let den = MICROS_PER_SECOND as int;
    let s = turn_share(dt);
    lemma_pointer_motion_bounds(dx, dt);
    lemma_drain_contracts(h + dx * dt, s, den);
    let a = abs(h + dx * dt);
    let r = abs(drain(h + dx * dt, s, den));
    assert(a <= TURN_ACC_LIMIT + 0x8000_0000 * dt);
    assert(r * den <= TURN_ACC_LIMIT * den) by (nonlinear_arith)
        requires
            r * den <= a * (den - s),
            a <= TURN_ACC_LIMIT + 0x8000_0000 * dt,
            s == 30 * dt,
            den == 1_000_000,
            0 <= dt <= 33_333,
    ;
}

/// One coordinate of the sum of the basis directions that the held actions
/// select (`f`, `r`, `u`: that coordinate of forward, right and up).
pub open spec fn axis_sum(a: MoveActions, f: int, r: int, u: int) -> int {
    (if a.forward { f } else { 0 }) - (if a.back { f } else { 0 }) + (if a.right { r } else { 0 })
        - (if a.left { r } else { 0 }) + (if a.up { u } else { 0 }) - (if a.down { u } else { 0 })
}

/// The combined direction that the held actions ask for.
pub open spec fn combined_direction(b: Basis, a: MoveActions) -> (int, int, int) {
    (
        axis_sum(a, b.forward.x as int, b.right.x as int, b.up.x as int),
        axis_sum(a, b.forward.y as int, b.right.y as int, b.up.y as int),
        axis_sum(a, b.forward.z as int, b.right.z as int, b.up.z as int),
    )
}

pub open spec fn norm_sq(v: (int, int, int)) -> int {
    v.0 * v.0 + v.1 * v.1 + v.2 * v.2
}

/// The combined direction scaled to length `UNIT` (each coordinate rounded
/// toward zero), or `None` when it is no longer than `MOVE_DEADZONE`.
pub open spec fn movement_direction_of(b: Basis, a: MoveActions) -> Option<(int, int, int)> {
    let d = combined_direction(b, a);
    let len = floor_sqrt_of(norm_sq(d));
    if norm_sq(d) > MOVE_DEADZONE * MOVE_DEADZONE {
        Some(
            (
                scale_down(d.0, UNIT as int, len),
                scale_down(d.1, UNIT as int, len),
                scale_down(d.2, UNIT as int, len),
            ),
        )
    } else {
        None
    }
}

pub open spec fn triple_of(v: Option<Vec3>) -> Option<(int, int, int)> {
    match v {
        Some(w) => Some((w.x as int, w.y as int, w.z as int)),
        None => None,
    }
}

/// The translation residual once this frame's input has joined it: a share
/// `move_share(dt)` of the unit movement direction, or nothing when the
/// direction falls in the dead zone.
pub open spec fn requested(acc: Vec3, dir: Option<(int, int, int)>, dt: int, desired: Vec3) -> bool {
    let den = MICROS_PER_SECOND as int;
    match dir {
        Some(d) => {
            &&& desired.x == acc.x + scale_down(d.0, move_share(dt), den)
            &&& desired.y == acc.y + scale_down(d.1, move_share(dt), den)
            &&& desired.z == acc.z + scale_down(d.2, move_share(dt), den)
        },
        None => desired == acc,
    }
}

/// `next` is `prev` moved by the share `move_share(dt)` of `rem`, each
/// coordinate rounded away from zero.
pub open spec fn moved(prev: Vec3, rem: Vec3, dt: int, next: Vec3) -> bool {
    let den = MICROS_PER_SECOND as int;
    &&& next.x == prev.x + scale_up(rem.x as int, move_share(dt), den)
    &&& next.y == prev.y + scale_up(rem.y as int, move_share(dt), den)
    &&& next.z == prev.z + scale_up(rem.z as int, move_share(dt), den)
}

/// `acc` is what stays of `rem` once this frame's share has been applied.
pub open spec fn drained(rem: Vec3, dt: int, acc: Vec3) -> bool {
    let den = MICROS_PER_SECOND as int;
    &&& acc.x == drain(rem.x as int, move_share(dt), den)
    &&& acc.y == drain(rem.y as int, move_share(dt), den)
    &&& acc.z == drain(rem.z as int, move_share(dt), den)
}

fn axis_sum_exec(a: &MoveActions, f: i64, r: i64, u: i64) -> (s: i64)
    requires
        abs(f as int) <= UNIT,
        abs(r as int) <= UNIT,
        abs(u as int) <= UNIT,
    ensures
        s == axis_sum(*a, f as int, r as int, u as int),
        abs(s as int) <= 3 * UNIT,
{
    let mut s: i64 = 0;
    if a.forward {
        s = s + f;
    }
    if a.back {
        s = s - f;
    }
    if a.right {
        s = s + r;
    }
    if a.left {
        s = s - r;
    }
    if a.up {
        s = s + u;
    }
    if a.down {
        s = s - u;
    }
    s
}

/// The unit direction (length `UNIT`) that the held movement actions ask
/// for, from the basis of the current orientation; `None` when the combined
/// direction is too short to have one.
pub fn movement_direction(b: &Basis, a: &MoveActions) -> (r: Option<Vec3>)
    requires
        b.wf(),
    ensures
        triple_of(r) == movement_direction_of(*b, *a),
        r matches Some(v) ==> v.bounded_by(UNIT as int),
{
    let x = axis_sum_exec(a, b.forward.x, b.right.x, b.up.x);
    let y = axis_sum_exec(a, b.forward.y, b.right.y, b.up.y);
    let z = axis_sum_exec(a, b.forward.z, b.right.z, b.up.z);
    let ghost d = combined_direction(*b, *a);
    assert(0 <= x * x <= 9_000_000_000_000 && 0 <= y * y <= 9_000_000_000_000 && 0 <= z * z
        <= 9_000_000_000_000) by (nonlinear_arith)
        requires
            abs(x as int) <= 3_000_000,
            abs(y as int) <= 3_000_000,
            abs(z as int) <= 3_000_000,
    ;
    let n: i64 = x * x + y * y + z * z;
    assert(n == norm_sq(d));
    if n > MOVE_DEADZONE * MOVE_DEADZONE {
        let root = floor_sqrt(n as u64);
        assert(root <= n) by (nonlinear_arith)
            requires
                root * root <= n,
                0 <= root,
        ;
        let len = root as i64;
        proof {
            lemma_floor_sqrt_of(len as int, n as int);
            lemma_coordinate_within_root(x as int, len as int, n as int);
            lemma_coordinate_within_root(y as int, len as int, n as int);
            lemma_coordinate_within_root(z as int, len as int, n as int);
            if len == 0 {
                assert(n < 1);
            }
        }
        Some(
            Vec3 {
                x: scale_down_exec(x, UNIT, len),
                y: scale_down_exec(y, UNIT, len),
                z: scale_down_exec(z, UNIT, len),
            },
        )
    } else {
        None
    }
}

impl Player {
    /// A player at rest and not under control, standing in the physics world
    /// as `collider`, with its transform at `position` and the orientation
    /// `(yaw, pitch)`.
    pub fn spawn(position: Vec3, yaw: i64, pitch: i64, collider: ColliderHandle) -> (r: (
        Player,
        Transform,
    ))
        ensures
            r.0@ == (PlayerView {
                look_at_point: None,
                look_at_body: None,
                collider,
                h_rot_acc: 0,
                v_rot_acc: 0,
                translation_acc: Vec3 { x: 0, y: 0, z: 0 },
                controlled: false,
            }),
            r.0@.wf(),
            r.1 == (Transform { position, yaw, pitch }),
    {
        let player = Player {
            look_at_pt: None,
            look_at_body: None,
            collider,
            h_rot_acc: 0,
            v_rot_acc: 0,
            translation_acc: Vec3::zeros(),
            controlled: false,
        };
        (player, Transform::new(position, yaw, pitch))
    }

    pub fn look_at_point(&self) -> (r: Option<Vec3>)
        ensures
            r == self@.look_at_point,
    {
        self.look_at_pt
    }

    pub fn look_at_body(&self) -> (r: Option<RigidBodyHandle>)
        ensures
            r == self@.look_at_body,
    {
        self.look_at_body
    }

    pub fn controlled(&self) -> (r: bool)
        ensures
            r == self@.controlled,
    {
        self.controlled
    }

    pub fn collider(&self) -> (r: ColliderHandle)
        ensures
            r == self@.collider,
    {
        self.collider
    }

    /// Turns the transform by a share of the pending rotation, after the
    /// pointer motion `(dx, dy)` has joined it.
    fn rotate(&mut self, dt: i64, tr: &mut Transform, dx: i32, dy: i32)
        requires
            old(self)@.turns_bounded(),
            old(tr).wf(),
            valid_frame(dt as int),
        ensures
            rotation_step(old(self)@, *old(tr), final(self)@, *final(tr), dt as int, dx as int, dy as int),
            final(self)@.turns_bounded(),
            final(tr).wf(),
    {
        let share = ROTATION_SPEED * dt;
        proof {
            lemma_pointer_motion_bounds(dx as int, dt as int);
            lemma_pointer_motion_bounds(dy as int, dt as int);
        }
        let mut v: i64 = self.v_rot_acc + (dy as i64) * dt;
        if tr.pitch + v <= MIN_TOP_ANGLE {
            v = MIN_TOP_ANGLE - tr.pitch;
        } else if tr.pitch + v >= MIN_BOTTOM_ANGLE {
            v = MIN_BOTTOM_ANGLE - tr.pitch;
        }
        proof {
            lemma_scale_up_bounds(v as int, share as int, MICROS_PER_SECOND as int);
            lemma_drain_contracts(v as int, share as int, MICROS_PER_SECOND as int);
        }
        let v_rot = scale_up_exec(v, share, MICROS_PER_SECOND);
        self.v_rot_acc = v - v_rot;

        let h: i64 = self.h_rot_acc + (dx as i64) * dt;
        proof {
            lemma_scale_up_bounds(h as int, share as int, MICROS_PER_SECOND as int);
            lemma_turn_residual_bounded(self.h_rot_acc as int, dx as int, dt as int);
        }
        let h_rot = scale_up_exec(h, share, MICROS_PER_SECOND);
        self.h_rot_acc = h - h_rot;

        tr.rotate_yaw(h_rot);
        tr.rotate_pitch(v_rot);
    }

    /// The first phase of a frame with pointer motion `(dx, dy)`. A
    /// controlled player turns and returns `true`: the caller then asks for
    /// its movement (`request_movement`) and applies what the physics world
    /// allows (`apply_movement`). A player out of control drops its pending
    /// translation and returns `false`; its pending rotation is kept.
    pub fn update(&mut self, dt: i64, tr: &mut Transform, dx: i32, dy: i32) -> (moving: bool)
        requires
            old(self)@.wf(),
            old(tr).wf(),
            valid_frame(dt as int),
        ensures
            moving == old(self)@.controlled,
            update_step(old(self)@, *old(tr), final(self)@, *final(tr), dt as int, dx as int, dy as int),
            final(self)@.wf(),
            final(tr).wf(),
    {
        if self.controlled {
            self.rotate(dt, tr, dx, dy);
            true
        } else {
            self.translation_acc = Vec3::zeros();
            false
        }
    }

    /// Adds this frame's movement input to the translation residual and
    /// returns the residual, which the physics world resolves against
    /// obstacles for the player's collider before `apply_movement`. Input
    /// inside the dead zone leaves the residual as it was.
    pub fn request_movement(&mut self, dt: i64, basis: &Basis, actions: &MoveActions) -> (desired:
        Vec3)
        requires
            old(self)@.wf(),
            basis.wf(),
            valid_frame(dt as int),
        ensures
            requested(
                old(self)@.translation_acc,
                movement_direction_of(*basis, *actions),
                dt as int,
                desired,
            ),
            final(self)@ == (PlayerView { translation_acc: desired, ..old(self)@ }),
            final(self)@.turns_bounded(),
            desired.bounded_by(ACC_LIMIT + UNIT),
    {
        let dir = movement_direction(basis, actions);
        match dir {
            Some(d) => {
                let share = MOVE_SPEED * dt;
                let acc = self.translation_acc;
                self.translation_acc = Vec3 {
                    x: acc.x + scale_down_exec(d.x, share, MICROS_PER_SECOND),
                    y: acc.y + scale_down_exec(d.y, share, MICROS_PER_SECOND),
                    z: acc.z + scale_down_exec(d.z, share, MICROS_PER_SECOND),
                };
            },
            None => {},
        }
        self.translation_acc
    }

    /// Applies a share of the translation that the physics world allows.
    /// `remaining` is the part of the requested translation that is safe to
    /// apply and `confirmed` the collider's current position. The residual
    /// becomes `remaining` less this frame's share; the transform moves by
    /// that share, and the returned position, `confirmed` moved by the same
    /// share, is where the collider is to be put.
    pub fn apply_movement(&mut self, dt: i64, tr: &mut Transform, remaining: Vec3, confirmed: Vec3) -> (collider_position: Vec3)
        requires
            old(self)@.turns_bounded(),
            old(tr).in_world(),
            remaining.bounded_by(ACC_LIMIT as int),
            confirmed.bounded_by(WORLD_LIMIT as int),
            valid_frame(dt as int),
        ensures
            moved(old(tr).position, remaining, dt as int, final(tr).position),
            moved(confirmed, remaining, dt as int, collider_position),
            drained(remaining, dt as int, final(self)@.translation_acc),
            final(self)@ == (PlayerView {
                translation_acc: final(self)@.translation_acc,
                ..old(self)@
            }),
            final(tr).yaw == old(tr).yaw,
            final(tr).pitch == old(tr).pitch,
            final(self)@.wf(),
    {
        let share = MOVE_SPEED * dt;
        proof {
            lemma_drain_contracts(remaining.x as int, share as int, MICROS_PER_SECOND as int);
            lemma_drain_contracts(remaining.y as int, share as int, MICROS_PER_SECOND as int);
            lemma_drain_contracts(remaining.z as int, share as int, MICROS_PER_SECOND as int);
            lemma_scale_up_bounds(remaining.x as int, share as int, MICROS_PER_SECOND as int);
            lemma_scale_up_bounds(remaining.y as int, share as int, MICROS_PER_SECOND as int);
            lemma_scale_up_bounds(remaining.z as int, share as int, MICROS_PER_SECOND as int);
        }
        let step = Vec3 {
            x: scale_up_exec(remaining.x, share, MICROS_PER_SECOND),
            y: scale_up_exec(remaining.y, share, MICROS_PER_SECOND),
            z: scale_up_exec(remaining.z, share, MICROS_PER_SECOND),
        };
        self.translation_acc = Vec3 {
            x: remaining.x - step.x,
            y: remaining.y - step.y,
            z: remaining.z - step.z,
        };
        tr.translate(step);
        Vec3 { x: confirmed.x + step.x, y: confirmed.y + step.y, z: confirmed.z + step.z }
    }

    /// Flips control when the toggle action fired this frame and says what
    /// the window has to do with the pointer.
    pub fn toggle_control(&mut self, activated: bool) -> (change: CursorChange)
        ensures
            toggle_step(old(self)@, activated, final(self)@, change),
    {
        if activated {
            self.controlled = !self.controlled;
            if self.controlled {
                CursorChange::Capture
            } else {
                CursorChange::Release
            }
        } else {
            CursorChange::Keep
        }
    }

    /// Records the result of the ray cast along the forward direction, which
    /// leaves out the player's own collider: the hit point and its body, or
    /// nothing when the view is unobstructed.
    pub fn update_look_at(&mut self, hit: Option<RayHit>)
        ensures
            final(self)@ == (PlayerView {
                look_at_point: match hit {
                    Some(h) => Some(h.point),
                    None => None,
                },
                look_at_body: match hit {
                    Some(h) => Some(h.body),
                    None => None,
                },
                ..old(self)@
            }),
    {
        match hit {
            Some(h) => {
                self.look_at_pt = Some(h.point);
                self.look_at_body = Some(h.body);
            },
            None => {
                self.look_at_pt = None;
                self.look_at_body = None;
            },
        }
    }
}

} // verus!
