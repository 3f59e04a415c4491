//! What passes between the library and the rigid-body solver: descriptions of
//! bodies and of the boxes that collide for them on the way in, handles and
//! transforms on the way out. The solver's own values are made from these, and
//! turned into these, by the caller.

use vstd::prelude::*;
use crate::fixed::{Vec2, in_world, is_in_world};

verus! {

/// Whether the solver moves a body.
#[derive(Clone, Copy, Debug, PartialEq, Eq, Structural)]
pub enum BodyKind {
    /// Moved by gravity, contacts and impulses.
    Dynamic,
    /// Never moved; impulses have no effect on it.
    Fixed,
}

/// A body as it is inserted.
#[derive(Clone, Copy, Debug, PartialEq, Eq, Structural)]
pub struct RigidBody {
    pub kind: BodyKind,
    pub translation: Vec2,
}

/// A box that collides, fixed when it is made: half-extents, where its centre
/// lies, and its material. Lengths in thousandths of a logical pixel, friction
/// and restitution in thousandths, mass in thousandths of a unit of mass.
#[derive(Clone, Copy, Debug, PartialEq, Eq, Structural)]
pub struct Collider {
    pub half_width: i64,
    pub half_height: i64,
    pub translation: Vec2,
    pub friction: i64,
    pub restitution: i64,
    /// `None` leaves the mass to the solver, which derives it from the box.
    pub mass: Option<i64>,
}

/// The solver's name for a body: a slot and the generation of what stands in
/// it. It is valid from the body's insertion on; no body is ever removed.
#[derive(Clone, Copy, Debug, PartialEq, Eq, Structural)]
pub struct BodyHandle {
    pub index: u32,
    pub generation: u32,
}

/// What is read of a body after a step: where it is, how it is turned, and how
/// fast it moves.
#[derive(Clone, Copy, Debug, PartialEq, Eq, Structural)]
pub struct Transform {
    pub position: Vec2,
    /// In thousandths of a radian.
    pub rotation: i64,
    pub velocity: Vec2,
}

impl Transform {
    /// Whether the body is inside the world.
    pub open spec fn wf(&self) -> bool {
        in_world(self.position.x as int) && in_world(self.position.y as int)
    }

    /// Takes a reading of a body, if the body is inside the world.
    pub fn new(position: Vec2, rotation: i64, velocity: Vec2) -> (transform: Option<Transform>)
        ensures
            transform.is_some() <==> in_world(position.x as int) && in_world(position.y as int),
            transform.is_some() ==> transform.unwrap() == (Transform { position, rotation, velocity })
                && transform.unwrap().wf(),
    {
        if is_in_world(position.x) && is_in_world(position.y) {
            Some(Transform { position, rotation, velocity })
        } else {
            None
        }
    }
}

} // verus!
