//! The point-in-time world snapshot sent to a newly joined client.

use vstd::prelude::*;
use crate::dungeon::Dungeon;
use crate::transforms::transform::Transform;
use crate::transforms::vec2::Vec2;

verus! {

/// A consistent view of the world as of the tick that admitted a new player:
/// the new player's own entry, every other player, every live monster, the
/// dungeon layout, and a full copy of the transform table.
pub struct StateSnapshot {
    /// Where the transport should deliver this snapshot.
    pub addr_for: String,
    /// The newly joined player: id, display name, position.
    pub new_player: (u32, String, Vec2),
    /// Every player that was already connected: id, display name, position.
    pub other_players: Vec<(u32, String, Vec2)>,
    /// Every live monster: template id, instance id, position.
    pub monsters: Vec<(u32, u32, Vec2)>,
    /// The dungeon layout.
    pub dungeon: Dungeon,
    /// The full transform table, including the new player.
    pub all_player_ts: Vec<(u32, Transform)>,
}

} // verus!
