//! The dungeon layout the core runs on: an entrance and the walkable tiles.
//! It is read-only input, built once before the loop starts.

use vstd::prelude::*;
use crate::transforms::vec2::Vec2;

verus! {

/// An immutable dungeon layout.
pub struct Dungeon {
    pub entrance: Vec2,
    pub paths: Vec<Vec2>,
}

impl Dungeon {
    /// Builds a dungeon from its entrance and walkable tiles.
    pub fn new(entrance: Vec2, paths: Vec<Vec2>) -> (r: Dungeon)
        ensures
            r.entrance == entrance,
            r.paths@ == paths@,
    {
        Dungeon { entrance, paths }
    }

    /// Copies the full layout, for inclusion in a snapshot.
    pub fn duplicate(&self) -> (r: Dungeon)
        ensures
            r.entrance == self.entrance,
            r.paths@ == self.paths@,
    {
        let mut paths: Vec<Vec2> = Vec::new();
        let mut i: usize = 0;
        while i < self.paths.len()
            invariant
                i <= self.paths.len(),
                paths@ == self.paths@.subrange(0, i as int),
            decreases self.paths.len() - i,
        {
            paths.push(self.paths[i]);
            i += 1;
        }
        proof {
            assert(paths@ == self.paths@);
        }
        Dungeon { entrance: self.entrance, paths }
    }
}

} // verus!
