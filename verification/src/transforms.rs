//! Positions, facings and the authoritative transform index.

pub mod positioner;
pub mod transform;
pub mod vec2;
