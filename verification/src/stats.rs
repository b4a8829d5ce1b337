//! Numeric stat blocks shared by all monster templates.

use vstd::prelude::*;

verus! {

/// Current and maximum pools of a creature.
#[derive(Clone, Copy, PartialEq, Eq, Structural, Debug)]
pub struct Stats {
    pub cur_health: u32,
    pub max_health: u32,
    pub cur_stamina: u32,
    pub max_stamina: u32,
    pub cur_magicka: u32,
    pub max_magicka: u32,
}

/// The three base traits of a creature.
#[derive(Clone, Copy, PartialEq, Eq, Structural, Debug)]
pub struct Attributes {
    pub might: u32,
    pub fines: u32,
    pub intel: u32,
}

} // verus!
