//! Handles of the physics world, carried through the controller unopened.
use vstd::prelude::*;

verus! {

/// The physics world's handle of a collision shape.
#[verifier::external_type_specification]
#[verifier::external_body]
pub struct ExColliderHandle(rapier3d::prelude::ColliderHandle);

/// The physics world's handle of a rigid body.
#[verifier::external_type_specification]
#[verifier::external_body]
pub struct ExRigidBodyHandle(rapier3d::prelude::RigidBodyHandle);

} // verus!
