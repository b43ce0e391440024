use vstd::prelude::*;

use crate::fixed::{abs, Vec3, UNIT};

verus! {

/// Half a turn, in microradians.
pub const PI_MICRO: i64 = 3_141_593;

/// A full turn, in microradians.
pub const TAU_MICRO: i64 = 6_283_185;

/// The reach of the world: no coordinate of a position leaves
/// `[-WORLD_LIMIT, WORLD_LIMIT]` (about a million kilometres).
pub const WORLD_LIMIT: i64 = 1_125_899_906_842_624;

/// The heading `a` brought into `[0, TAU_MICRO)` by whole turns.
pub open spec fn wrap_heading(a: int) -> int {
    a % (TAU_MICRO as int)
}

/// Position and orientation of an entity.
///
/// The orientation is held as a heading (`yaw`, a rotation about the world
/// vertical axis) and as `pitch`, the angle between the forward direction
/// and the world up axis: 0 looks straight up, `PI_MICRO` straight down.
#[derive(Clone, Copy, Debug, PartialEq, Eq, Structural)]
pub struct Transform {
    pub position: Vec3,
    pub yaw: i64,
    pub pitch: i64,
}

/// The forward, right and up directions of an orientation, each of length
/// `UNIT` (up to rounding).
#[derive(Clone, Copy, Debug, PartialEq, Eq, Structural)]
pub struct Basis {
    pub forward: Vec3,
    pub right: Vec3,
    pub up: Vec3,
}

impl Basis {
    pub open spec fn wf(self) -> bool {
        self.forward.bounded_by(UNIT as int) && self.right.bounded_by(UNIT as int)
            && self.up.bounded_by(UNIT as int)
    }
}

impl Transform {
    /// The heading is a whole turn at most and the pitch lies between the
    /// two poles.
    pub open spec fn wf(self) -> bool {
        &&& 0 <= self.yaw < TAU_MICRO
        &&& 0 <= self.pitch <= PI_MICRO
    }

    pub open spec fn in_world(self) -> bool {
        self.position.bounded_by(WORLD_LIMIT as int)
    }

    pub fn new(position: Vec3, yaw: i64, pitch: i64) -> (r: Transform)
        ensures
            r == (Transform { position, yaw, pitch }),
    {
        Transform { position, yaw, pitch }
    }

    pub fn position(&self) -> (r: Vec3)
        ensures
            r == self.position,
    {
        self.position
    }

    /// Moves the position by `d`.
    pub fn translate(&mut self, d: Vec3)
        requires
            old(self).position.bounded_by(WORLD_LIMIT as int),
            d.bounded_by(WORLD_LIMIT as int),
        ensures
            final(self).position.x == old(self).position.x + d.x,
            final(self).position.y == old(self).position.y + d.y,
            final(self).position.z == old(self).position.z + d.z,
            final(self).yaw == old(self).yaw,
            final(self).pitch == old(self).pitch,
    {
        self.position = Vec3 {
            x: self.position.x + d.x,
            y: self.position.y + d.y,
            z: self.position.z + d.z,
        };
    }

    /// Turns the heading about the world vertical axis by `angle`.
    pub fn rotate_yaw(&mut self, angle: i64)
        requires
            0 <= old(self).yaw < TAU_MICRO,
            abs(angle as int) <= WORLD_LIMIT,
        ensures
            final(self).yaw == wrap_heading(old(self).yaw + angle),
            0 <= final(self).yaw < TAU_MICRO,
            final(self).position == old(self).position,
            final(self).pitch == old(self).pitch,
    {
        let s: i64 = self.yaw + angle;
        if s >= 0 {
            self.yaw = ((s as u64) % (TAU_MICRO as u64)) as i64;
        } else {
            let m: u64 = ((-s) as u64) % (TAU_MICRO as u64);
            proof {
                let t = TAU_MICRO as int;
                let k = (-s) / t;
                assert(-s == k * t + m);
                if m == 0 {
                    assert(s == (-k) * t + 0);
                    vstd::arithmetic::div_mod::lemma_fundamental_div_mod_converse(s as int, t, -k, 0);
                } else {
                    assert(s == (-k - 1) * t + (t - m)) by (nonlinear_arith)
                        requires
                            -s == k * t + m,
                    ;
                    vstd::arithmetic::div_mod::lemma_fundamental_div_mod_converse(
                        s as int,
                        t,
                        -k - 1,
                        t - m,
                    );
                }
            }
            if m == 0 {
                self.yaw = 0;
            } else {
                self.yaw = TAU_MICRO - (m as i64);
            }
        }
    }

    /// Tilts the forward direction away from the world up axis by `angle`.
    pub fn rotate_pitch(&mut self, angle: i64)
        requires
            0 <= old(self).pitch + angle <= PI_MICRO,
        ensures
            final(self).pitch == old(self).pitch + angle,
            final(self).position == old(self).position,
            final(self).yaw == old(self).yaw,
    {
        self.pitch = self.pitch + angle;
    }
}

} // verus!
