//! The closed set of things that the compositor orders.

use vstd::prelude::*;
use crate::engine::Engine;
use crate::grass::GrassBlade;
use crate::track::Track;
use crate::traits::Drawable;

verus! {

/// Anything that takes part in the sorted set.
#[derive(Clone, Copy, Debug, PartialEq, Eq, Structural)]
pub enum Entity {
    Blade(GrassBlade),
    Engine(Engine),
    Track(Track),
}

impl Drawable for Entity {
    open spec fn position(&self) -> (i64, i64) {
        match *self {
            Entity::Blade(blade) => blade.position(),
            Entity::Engine(engine) => engine.position(),
            Entity::Track(track) => track.position(),
        }
    }

    fn get_position(&self) -> (p: (i64, i64)) {
        match self {
            Entity::Blade(blade) => blade.get_position(),
            Entity::Engine(engine) => engine.get_position(),
            Entity::Track(track) => track.get_position(),
        }
    }
}

} // verus!
