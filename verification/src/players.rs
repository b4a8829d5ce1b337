//! Connected players. A player's position lives in the transform index,
//! keyed by the player's id; the player record itself holds only identity.

use vstd::prelude::*;

verus! {

/// One connected player.
pub struct Player {
    pub id: u32,
    pub name: String,
}

impl Player {
    /// Creates a player record with the given id and display name.
    pub fn new(id: u32, name: String) -> (r: Player)
        ensures
            r.id == id,
            r.name@ == name@,
    {
        Player { id, name }
    }
}

} // verus!
