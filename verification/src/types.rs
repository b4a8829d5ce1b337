//! The request and response messages the core exchanges with its transport.

use vstd::prelude::*;
use crate::snapshot::StateSnapshot;
use crate::transforms::transform::Direction;
use crate::transforms::transform::Transform;
use crate::transforms::vec2::Vec2;

verus! {

/// A client-originated request. Addresses are opaque transport tokens the
/// core only echoes back.
pub enum RequestType {
    /// Register a player: reply-to address and the player's id.
    NewPlayer(String, u32),
    /// Overwrite a player's transform, unvalidated.
    PlayerMoved(u32, Transform),
    /// Spawn one monster under the given fresh instance id.
    SpawnMonster(u32),
    /// Recompute every monster's path toward the given target.
    AStar(Vec2),
}

/// A response emitted by the core toward the transport.
pub enum ResponseType {
    /// Full world view for a newly joined player.
    StateSnapshot(StateSnapshot),
    /// A monster was spawned: template id, instance id, position, facing.
    NewMonster(u32, u32, Vec2, Direction),
}

} // verus!
