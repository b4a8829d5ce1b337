//! Monster templates and spawned monster instances.
//!
//! A [`Monster`] is an immutable template shared by every spawn of its kind;
//! a [`MonsterInstance`] holds all per-spawn mutable state. A path is stored
//! in reverse order of travel: the next step to take sits at the end of the
//! vector, so consuming one step is a pop from the end, and the first element
//! is the route's final goal.

use vstd::prelude::*;
use vstd::string::StringExecFns;
use crate::stats::Attributes;
use crate::stats::Stats;
use crate::text::dec_digits;
use crate::text::u32_to_string;
use crate::transforms::vec2::Vec2;

verus! {

/// An immutable monster template: one entry of the catalog, never a spawned
/// monster itself. `name` is a static string to underline that templates are
/// process-lifetime constants.
#[derive(Clone, Copy)]
pub struct Monster {
    pub stats: Stats,
    pub attrs: Attributes,
    pub sight_range: u32,
    pub id: u32,
    pub name: &'static str,
    pub spawn_chance: u32,
}

/// One spawned monster. Timestamps are tick counters supplied by the caller;
/// a fresh instance has seen nothing yet, so its last sighting is 0.
pub struct MonsterInstance {
    pub template: Monster,
    pub instance_id: u32,
    pub path: Vec<Vec2>,
    pub combat_target: Option<u32>,
    pub last_sighting: u64,
}

/// The wire form of an instance: the template id and the instance id in
/// base 10, joined by a double colon. Clients rebuild display data from a
/// pre-shared copy of the template catalog.
pub open spec fn serial_of(template_id: u32, instance_id: u32) -> Seq<char> {
    dec_digits(template_id as nat) + seq![':', ':'] + dec_digits(instance_id as nat)
}

impl MonsterInstance {
    /// Creates an instance of the given template with an empty path, no
    /// combat target, and a zeroed sighting clock.
    pub fn new(template: Monster, instance_id: u32) -> (r: Self)
        ensures
            r.template == template,
            r.instance_id == instance_id,
            r.path@ == Seq::<Vec2>::empty(),
            r.combat_target is None,
            r.last_sighting == 0,
    {
        Self { template, instance_id, path: Vec::new(), combat_target: None, last_sighting: 0 }
    }

    /// The unique id of this instance.
    pub fn id(&self) -> (r: u32)
        ensures
            r == self.instance_id,
    {
        self.instance_id
    }

    /// The final goal of the current path, if any (the path's first element,
    /// since the path is stored in reverse order of travel).
    pub fn target(&self) -> (r: Option<Vec2>)
        ensures
            r == (if self.path@.len() == 0 {
                Option::<Vec2>::None
            } else {
                Option::Some(self.path@[0])
            }),
    {
        if self.path.len() == 0 {
            None
        } else {
            Some(self.path[0])
        }
    }

    /// Replaces the current path; every other field is kept.
    pub fn set_path(&mut self, path: Vec<Vec2>)
        ensures
            final(self).path@ == path@,
            final(self).template == old(self).template,
            final(self).instance_id == old(self).instance_id,
            final(self).combat_target == old(self).combat_target,
            final(self).last_sighting == old(self).last_sighting,
    {
        self.path = path;
    }

    /// Consumes and returns the next step of the path (the last element).
    pub fn next_step(&mut self) -> (r: Option<Vec2>)
        ensures
            old(self).path@.len() == 0 ==> r is None && final(self).path@ == old(self).path@,
            old(self).path@.len() > 0 ==> r == Option::Some(old(self).path@.last())
                && final(self).path@ == old(self).path@.drop_last(),
            final(self).template == old(self).template,
            final(self).instance_id == old(self).instance_id,
            final(self).combat_target == old(self).combat_target,
            final(self).last_sighting == old(self).last_sighting,
    {
        self.path.pop()
    }

    /// The actor this instance is currently fighting, if any.
    pub fn combat_target(&self) -> (r: Option<u32>)
        ensures
            r == self.combat_target,
    {
        self.combat_target
    }

    /// Enters combat against the given actor.
    pub fn start_combat_with(&mut self, id: u32)
        ensures
            final(self).combat_target == Option::Some(id),
            final(self).template == old(self).template,
            final(self).instance_id == old(self).instance_id,
            final(self).path@ == old(self).path@,
            final(self).last_sighting == old(self).last_sighting,
    {
        self.combat_target = Some(id);
    }

    /// Leaves combat.
    pub fn stop_combat(&mut self)
        ensures
            final(self).combat_target is None,
            final(self).template == old(self).template,
            final(self).instance_id == old(self).instance_id,
            final(self).path@ == old(self).path@,
            final(self).last_sighting == old(self).last_sighting,
    {
        self.combat_target = None;
    }

    /// How far this instance can see, taken from its template.
    pub fn sight_range(&self) -> (r: u32)
        ensures
            r == self.template.sight_range,
    {
        self.template.sight_range
    }

    /// The tick at which this instance last saw its target.
    pub fn last_sighting(&self) -> (r: u64)
        ensures
            r == self.last_sighting,
    {
        self.last_sighting
    }

    /// Records a sighting at the given tick.
    pub fn reset_last_sighting(&mut self, now: u64)
        ensures
            final(self).last_sighting == now,
            final(self).template == old(self).template,
            final(self).instance_id == old(self).instance_id,
            final(self).path@ == old(self).path@,
            final(self).combat_target == old(self).combat_target,
    {
        self.last_sighting = now;
    }

    /// Renders the wire form of this instance: template id, "::", instance id.
    pub fn serialize(&self) -> (r: String)
        ensures
            r@ == serial_of(self.template.id, self.instance_id),
    {
        let mut s: String = u32_to_string(self.template.id);
        s.append("::");
        let tail: String = u32_to_string(self.instance_id);
        s.append(tail.as_str());
        proof {
            reveal_strlit("::");
            assert(("::")@ =~= seq![':', ':']);
            assert(s@ =~= serial_of(self.template.id, self.instance_id));
        }
        s
    }
}

} // verus!
