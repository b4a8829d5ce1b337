//! Per-monster AI units and their single-tick advance.
//!
//! Each live monster owns one AI unit, chosen at spawn. The set of behaviors
//! is a tagged variant with an explicit advance function; richer transition
//! logic (chase, combat) is a pluggable concern outside the core, which only
//! guarantees that every unit is advanced exactly once per tick with
//! exclusive access to its instance. Every spawn starts with the stock idle
//! behavior, which watches and changes nothing.

use vstd::prelude::*;
use crate::monsters::MonsterInstance;

verus! {

/// The behavior of one monster instance.
#[derive(Clone, Copy, PartialEq, Eq, Structural, Debug)]
pub enum AiUnit {
    Idle,
}

/// What one advance step does to an instance. The idle behavior leaves the
/// instance exactly as it was.
pub open spec fn spec_advance(unit: AiUnit, m: MonsterInstance, now: u64) -> MonsterInstance {
    match unit {
        AiUnit::Idle => m,
    }
}

/// Advances one AI unit by one tick, with exclusive access to its instance.
/// Never fails and never blocks; a behavior with nothing to do leaves the
/// instance unchanged.
pub fn advance(unit: &AiUnit, m: &mut MonsterInstance, now: u64)
    ensures
        *final(m) == spec_advance(*unit, *old(m), now),
{
    match unit {
        AiUnit::Idle => {},
    }
}

} // verus!
