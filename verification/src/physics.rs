use vstd::prelude::*;

verus! {

/// Identifier of a spawned entity, as the physics engine names the two
/// colliders of a collision notification.
#[derive(Clone, Copy, PartialEq, Eq, Structural, Debug)]
pub struct Entity {
    pub id: u64,
}

/// Linear velocity of a rigid body, in units per second on each axis.
#[derive(Clone, Copy, PartialEq, Eq, Structural, Debug)]
pub struct Velocity {
    pub x: i64,
    pub y: i64,
}

/// World translation of an entity. Walking edits `x` directly; the engine
/// owns `y` between frames.
#[derive(Clone, Copy, PartialEq, Eq, Structural, Debug)]
pub struct Position {
    pub x: i64,
    pub y: i64,
}

/// The render-facing sprite flag the movement integrator touches: whether the
/// sprite is mirrored to face left.
#[derive(Clone, Copy, PartialEq, Eq, Structural, Debug)]
pub struct Sprite {
    pub flip_x: bool,
}

/// A notification from the physics engine that two colliders began or ceased
/// overlapping.
#[derive(Clone, Copy, PartialEq, Eq, Structural, Debug)]
pub enum CollisionEvent {
    Started(Entity, Entity),
    Stopped(Entity, Entity),
}

} // verus!
