//! Two-dimensional integer grid positions.

use vstd::prelude::*;

verus! {

/// A position on the dungeon grid: column and row.
#[derive(Clone, Copy, PartialEq, Eq, Structural, Debug)]
pub struct Vec2(pub i32, pub i32);

impl Vec2 {
    /// Builds a position from a coordinate pair.
    pub fn from_tuple(t: (i32, i32)) -> (r: Vec2)
        ensures
            r == (Vec2(t.0, t.1)),
    {
        Vec2(t.0, t.1)
    }
}

/// Two grid positions are adjacent when they differ by exactly one step
/// along exactly one axis (4-connected grid).
pub open spec fn adjacent(a: Vec2, b: Vec2) -> bool {
    (a.0 == b.0 && (a.1 - b.1 == 1 || b.1 - a.1 == 1)) || (a.1 == b.1 && (a.0 - b.0 == 1
        || b.0 - a.0 == 1))
}

/// Decides adjacency of two grid positions.
pub fn is_adjacent(a: Vec2, b: Vec2) -> (r: bool)
    ensures
        r == adjacent(a, b),
{
    if a.0 == b.0 {
        (b.1 > i32::MIN && a.1 == b.1 - 1) || (a.1 > i32::MIN && b.1 == a.1 - 1)
    } else if a.1 == b.1 {
        (b.0 > i32::MIN && a.0 == b.0 - 1) || (a.0 > i32::MIN && b.0 == a.0 - 1)
    } else {
        false
    }
}

} // verus!
