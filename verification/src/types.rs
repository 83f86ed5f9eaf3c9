//! Shared data: the component that names a creep, and the target that a
//! creep works on.
use vstd::prelude::*;

verus! {

/// What a creep is sent to do. The game objects are held by their object id
/// in packed form.
#[derive(Clone, Copy, Debug, PartialEq, Eq, Structural)]
pub enum CreepTarget {
    /// Harvest energy from the source with this id.
    Harvest(u128),
    /// Upgrade the room controller with this id.
    Upgrade(u128),
}

/// Component that stores a creep's name.
#[derive(Clone, Debug)]
pub struct CreepId(pub String);

} // verus!
