//! Fixed-point model of a first-person character controller.
//!
//! Lengths are counted in micrometres, angles in microradians and time in
//! microseconds, so that every quantity is an exact integer and every step
//! of the controller is proved free of overflow. A frame runs in phases:
//! `Player::update` turns the player, `Player::request_movement` and
//! `Player::apply_movement` move it around what the physics world allows,
//! `Player::toggle_control` follows the control toggle, and
//! `Player::update_look_at` records what the player looks at.

pub mod fixed;
pub mod laws;
pub mod physics_handles;
pub mod player;
pub mod schedule;
pub mod transform;

pub use fixed::Vec3;
pub use player::{
    movement_direction, CursorChange, MoveActions, Player, RayHit,
};
pub use schedule::Label;
pub use transform::{Basis, Transform};
