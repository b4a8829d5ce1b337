//! An actor's transform: position plus facing direction.

use vstd::prelude::*;
use crate::transforms::vec2::Vec2;

verus! {

/// The facing of an actor, one of the four grid directions.
#[derive(Clone, Copy, PartialEq, Eq, Structural, Debug)]
pub enum Direction {
    Up,
    Down,
    Left,
    Right,
}

/// Position and facing of one actor.
#[derive(Clone, Copy, PartialEq, Eq, Structural, Debug)]
pub struct Transform {
    pub position: Vec2,
    pub direction: Direction,
}

impl Transform {
    /// Builds a transform from its parts.
    pub fn with_values(position: Vec2, direction: Direction) -> (r: Transform)
        ensures
            r == (Transform { position, direction }),
    {
        Transform { position, direction }
    }
}

} // verus!
