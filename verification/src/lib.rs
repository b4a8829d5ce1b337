//! Authoritative simulation core of a multiplayer dungeon-crawler server.
//!
//! The library owns all world state: players, monster instances, and the
//! transform index that maps every actor to a position and facing. Requests
//! (join, move, spawn, pathfind) are applied one at a time by
//! [`handler::handle_request`], and the per-tick AI pass is
//! [`handler::tick_monsters`]; an embedding program runs the loop around them
//! and carries the messages.

pub mod ai;
pub mod astar;
pub mod catalog;
pub mod dungeon;
pub mod handler;
pub mod monsters;
pub mod players;
pub mod snapshot;
pub mod stats;
pub mod text;
pub mod transforms;
pub mod types;
