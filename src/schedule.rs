use vstd::prelude::*;

verus! {

/// Label of the stage that runs before the per-frame update: system
/// events, input sampling and frame timing.
#[derive(Debug, Clone, Copy, PartialEq, Eq, Hash, Structural)]
pub struct Label;

} // verus!
