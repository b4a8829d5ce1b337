//! The authoritative transform index: one entry per live actor, mapping its
//! id to a position and facing, plus the walkable tiles it was built from.

use vstd::prelude::*;
use crate::transforms::transform::Transform;
use crate::transforms::vec2::Vec2;

verus! {

/// There is an entry for the given id.
pub open spec fn seq_has(s: Seq<(u32, Transform)>, id: u32) -> bool {
    exists|i: int| 0 <= i < s.len() && s[i].0 == id
}

/// The index of the entry for the given id.
pub open spec fn key_idx(s: Seq<(u32, Transform)>, id: u32) -> int {
    choose|i: int| 0 <= i < s.len() && s[i].0 == id
}

/// The transform registered for the given id.
pub open spec fn seq_tr(s: Seq<(u32, Transform)>, id: u32) -> Transform {
    s[key_idx(s, id)].1
}

/// No two entries share an id.
pub open spec fn distinct_keys(s: Seq<(u32, Transform)>) -> bool {
    forall|i: int, j: int| 0 <= i < j < s.len() ==> (#[trigger] s[i]).0 != (#[trigger] s[j]).0
}

/// Some entry sits at the given position.
pub open spec fn pos_occupied(s: Seq<(u32, Transform)>, p: Vec2) -> bool {
    exists|i: int| 0 <= i < s.len() && (#[trigger] s[i]).1.position == p
}

/// `p` is the first walkable tile with no actor on it.
pub open spec fn first_open_spot(walk: Seq<Vec2>, s: Seq<(u32, Transform)>, p: Vec2) -> bool {
    exists|k: int|
        0 <= k < walk.len() && walk[k] == p && !pos_occupied(s, p) && (forall|j: int|
            0 <= j < k ==> pos_occupied(s, #[trigger] walk[j]))
}

/// The table with the entry for `id` (if any) overwritten to `t` and every
/// other entry kept.
pub open spec fn upd(s: Seq<(u32, Transform)>, id: u32, t: Transform) -> Seq<(u32, Transform)> {
    s.map(
        |i: int, e: (u32, Transform)|
            if e.0 == id {
                (id, t)
            } else {
                e
            },
    )
}

/// Under distinct keys, the entry holding an id is the entry `key_idx` names.
pub proof fn lemma_key_idx(s: Seq<(u32, Transform)>, id: u32, i: int)
    requires
        distinct_keys(s),
        0 <= i < s.len(),
        s[i].0 == id,
    ensures
        key_idx(s, id) == i,
        seq_tr(s, id) == s[i].1,
{
    assert(seq_has(s, id));
    let j = key_idx(s, id);
    assert(0 <= j < s.len() && s[j].0 == id);
    if i < j {
        assert(s[i].0 != s[j].0);
    }
    if j < i {
        assert(s[j].0 != s[i].0);
    }
}

/// Appending an entry with a fresh id moves no existing entry: lookups of
/// ids already present are unchanged.
pub proof fn lemma_tr_push(s: Seq<(u32, Transform)>, e: (u32, Transform), id: u32)
    requires
        distinct_keys(s),
        seq_has(s, id),
        e.0 != id,
    ensures
        seq_has(s.push(e), id),
        seq_tr(s.push(e), id) == seq_tr(s, id),
        distinct_keys(s.push(e)) ==> key_idx(s.push(e), id) == key_idx(s, id),
{
    let i = key_idx(s, id);
    assert(0 <= i < s.len() && s[i].0 == id);
    assert(s.push(e)[i].0 == id);
    assert(seq_has(s.push(e), id));
    let j = key_idx(s.push(e), id);
    assert(0 <= j < s.push(e).len() && s.push(e)[j].0 == id);
    if j < s.len() {
        lemma_key_idx(s, id, j);
        assert(s.push(e)[j].1 == s[j].1);
    } else {
        assert(s.push(e)[j] == e);
        assert(false);
    }
}

/// Overwriting one id's transform moves no other entry: the keys are
/// untouched and lookups of every other id are unchanged.
pub proof fn lemma_tr_upd(s: Seq<(u32, Transform)>, id: u32, t: Transform, other: u32)
    requires
        distinct_keys(s),
        seq_has(s, other),
        other != id,
    ensures
        seq_has(upd(s, id, t), other),
        seq_tr(upd(s, id, t), other) == seq_tr(s, other),
{
    let u = upd(s, id, t);
    assert(u.len() == s.len());
    assert(forall|k: int| 0 <= k < s.len() ==> (#[trigger] u[k]).0 == s[k].0);
    let i = key_idx(s, other);
    assert(0 <= i < s.len() && s[i].0 == other);
    assert(u[i].0 == other);
    assert(seq_has(u, other));
    let j = key_idx(u, other);
    assert(0 <= j < u.len() && u[j].0 == other);
    assert(s[j].0 == other);
    lemma_key_idx(s, other, j);
    assert(j == i);
    assert(u[i] == s[i]);
}

/// Appending an entry with a fresh id keeps the keys distinct, registers the
/// new id at the appended transform, and moves no existing entry.
pub proof fn lemma_tr_push_many(s: Seq<(u32, Transform)>, e: (u32, Transform))
    requires
        distinct_keys(s),
        !seq_has(s, e.0),
    ensures
        distinct_keys(s.push(e)),
        seq_has(s.push(e), e.0),
        seq_tr(s.push(e), e.0) == e.1,
        forall|id: u32|
            seq_has(s, id) ==> #[trigger] seq_has(s.push(e), id) && seq_tr(s.push(e), id) == seq_tr(
                s,
                id,
            ),
{
    assert(distinct_keys(s.push(e))) by {
        assert(forall|i: int|
            0 <= i < s.len() ==> (#[trigger] s.push(e)[i]).0 == s[i].0 && s[i].0 != e.0);
    }
    lemma_key_idx(s.push(e), e.0, s.len() as int);
    assert forall|id: u32| seq_has(s, id) implies #[trigger] seq_has(s.push(e), id) && seq_tr(
        s.push(e),
        id,
    ) == seq_tr(s, id) by {
        lemma_tr_push(s, e, id);
    }
}

/// Overwriting one id's transform keeps the keys (and their distinctness),
/// sets that id's transform, and moves no other entry.
pub proof fn lemma_tr_upd_many(s: Seq<(u32, Transform)>, id: u32, t: Transform)
    requires
        distinct_keys(s),
    ensures
        distinct_keys(upd(s, id, t)),
        upd(s, id, t).len() == s.len(),
        forall|x: u32| #[trigger] seq_has(upd(s, id, t), x) == seq_has(s, x),
        seq_has(s, id) ==> seq_tr(upd(s, id, t), id) == t,
        forall|x: u32|
            x != id && seq_has(s, x) ==> #[trigger] seq_tr(upd(s, id, t), x) == seq_tr(s, x),
{
    let u = upd(s, id, t);
    assert(forall|k: int| 0 <= k < s.len() ==> (#[trigger] u[k]).0 == s[k].0);
    assert forall|x: u32| #[trigger] seq_has(u, x) == seq_has(s, x) by {
        if seq_has(u, x) {
            let i = key_idx(u, x);
            assert(s[i].0 == x);
        }
        if seq_has(s, x) {
            let i = key_idx(s, x);
            assert(u[i].0 == x);
        }
    }
    if seq_has(s, id) {
        let i = key_idx(s, id);
        assert(u[i] == (id, t));
        lemma_key_idx(u, id, i);
    }
    assert forall|x: u32| x != id && seq_has(s, x) implies #[trigger] seq_tr(u, x) == seq_tr(
        s,
        x,
    ) by {
        lemma_tr_upd(s, id, t, x);
    }
}

/// LAW: overwriting a transform is idempotent. Applying the same move a
/// second time leaves the table exactly as the first application left it,
/// with one entry for the moved actor.
pub proof fn lemma_player_moved_idempotent(s: Seq<(u32, Transform)>, id: u32, t: Transform)
    ensures
        upd(upd(s, id, t), id, t) == upd(s, id, t),
{
    let u1 = upd(s, id, t);
    let u2 = upd(u1, id, t);
    assert forall|k: int| 0 <= k < s.len() implies #[trigger] u2[k] == u1[k] by {
        assert(u1[k] == (if s[k].0 == id {
            (id, t)
        } else {
            s[k]
        }));
    }
    assert(u2 =~= u1);
}

/// The map from actor id to transform, together with the walkable tiles the
/// world was built from. The tick loop owns it exclusively; helpers receive
/// it by reference.
pub struct WorldTransformer {
    walkable: Vec<Vec2>,
    entries: Vec<(u32, Transform)>,
}

impl WorldTransformer {
    /// The walkable tiles.
    pub closed spec fn walkable_view(self) -> Seq<Vec2> {
        self.walkable@
    }

    /// The registered entries, in registration order.
    pub closed spec fn entries_view(self) -> Seq<(u32, Transform)> {
        self.entries@
    }

    /// Every actor has exactly one entry.
    pub open spec fn wf(self) -> bool {
        distinct_keys(self.entries_view())
    }

    /// There is an entry for the given actor.
    pub open spec fn has_id(self, id: u32) -> bool {
        seq_has(self.entries_view(), id)
    }

    /// The transform of the given actor.
    pub open spec fn tr_of(self, id: u32) -> Transform {
        seq_tr(self.entries_view(), id)
    }

    /// Some actor stands at the given position.
    pub open spec fn occupied(self, p: Vec2) -> bool {
        pos_occupied(self.entries_view(), p)
    }

    /// Builds an empty index over the given walkable tiles.
    pub fn new(walkable: Vec<Vec2>) -> (r: WorldTransformer)
        ensures
            r.walkable_view() == walkable@,
            r.entries_view() == Seq::<(u32, Transform)>::empty(),
            r.wf(),
    {
        WorldTransformer { walkable, entries: Vec::new() }
    }

    /// Registers a new actor. Fails, changing nothing, when the id is
    /// already registered.
    pub fn add(&mut self, id: u32, t: Transform) -> (r: bool)
        requires
            old(self).wf(),
        ensures
            final(self).wf(),
            final(self).walkable_view() == old(self).walkable_view(),
            r == !old(self).has_id(id),
            r ==> final(self).entries_view() == old(self).entries_view().push((id, t)),
            !r ==> final(self).entries_view() == old(self).entries_view(),
    {
        if self.contains_id(id) {
            return false;
        }
        self.entries.push((id, t));
        true
    }

    /// Whether the given actor is registered.
    pub fn contains_id(&self, id: u32) -> (r: bool)
        ensures
            r == self.has_id(id),
    {
        let mut i: usize = 0;
        while i < self.entries.len()
            invariant
                i <= self.entries@.len(),
                forall|k: int| 0 <= k < i ==> (#[trigger] self.entries@[k]).0 != id,
            decreases self.entries@.len() - i,
        {
            if self.entries[i].0 == id {
                return true;
            }
            i += 1;
        }
        false
    }

    /// Looks up the transform of the given actor.
    pub fn transform(&self, id: u32) -> (r: Option<Transform>)
        requires
            self.wf(),
        ensures
            self.has_id(id) ==> r == Option::Some(self.tr_of(id)),
            !self.has_id(id) ==> r is None,
    {
        let mut i: usize = 0;
        while i < self.entries.len()
            invariant
                self.wf(),
                i <= self.entries@.len(),
                forall|k: int| 0 <= k < i ==> (#[trigger] self.entries@[k]).0 != id,
            decreases self.entries@.len() - i,
        {
            if self.entries[i].0 == id {
                proof {
                    lemma_key_idx(self.entries_view(), id, i as int);
                }
                return Some(self.entries[i].1);
            }
            i += 1;
        }
        None
    }

    /// Overwrites the transform of an already registered actor. Fails,
    /// changing nothing, when the id is unknown.
    pub fn change(&mut self, id: u32, t: Transform) -> (r: bool)
        requires
            old(self).wf(),
        ensures
            final(self).wf(),
            final(self).walkable_view() == old(self).walkable_view(),
            r == old(self).has_id(id),
            r ==> final(self).entries_view() == upd(old(self).entries_view(), id, t),
            r ==> final(self).has_id(id) && final(self).tr_of(id) == t,
            !r ==> final(self).entries_view() == old(self).entries_view(),
    {
        let ghost s0 = self.entries@;
        let mut i: usize = 0;
        while i < self.entries.len()
            invariant
                s0 == old(self).entries_view(),
                self.walkable@ == old(self).walkable@,
                distinct_keys(s0),
                self.entries@ == s0,
                i <= s0.len(),
                forall|k: int| 0 <= k < i ==> (#[trigger] s0[k]).0 != id,
            decreases s0.len() - i,
        {
            if self.entries[i].0 == id {
                let e = &mut self.entries[i];
                *e = (id, t);
                proof {
                    assert(self.entries@ =~= upd(s0, id, t)) by {
                        assert(forall|k: int|
                            0 <= k < s0.len() && k != i ==> (#[trigger] s0[k]).0 != id);
                        assert(self.entries@ == s0.update(i as int, (id, t)));
                        assert(forall|k: int|
                            0 <= k < s0.len() ==> #[trigger] upd(s0, id, t)[k] == (if s0[k].0 == id {
                                (id, t)
                            } else {
                                s0[k]
                            }));
                    }
                    assert(distinct_keys(self.entries@)) by {
                        assert(forall|k: int|
                            0 <= k < s0.len() ==> (#[trigger] self.entries@[k]).0 == s0[k].0);
                    }
                    lemma_key_idx(self.entries@, id, i as int);
                }
                return true;
            }
            i += 1;
        }
        false
    }

    /// Finds the first walkable tile where no actor stands. Returns nothing
    /// when every walkable tile is taken.
    pub fn open_spot(&self) -> (r: Option<Vec2>)
        ensures
            r matches Option::Some(p) ==> self.walkable_view().contains(p) && !self.occupied(p)
                && first_open_spot(self.walkable_view(), self.entries_view(), p),
            r is None ==> forall|k: int|
                0 <= k < self.walkable_view().len() ==> self.occupied(#[trigger] self.walkable_view()[k]),
    {
        let mut i: usize = 0;
        while i < self.walkable.len()
            invariant
                i <= self.walkable@.len(),
                forall|k: int| 0 <= k < i ==> self.occupied(#[trigger] self.walkable@[k]),
            decreases self.walkable@.len() - i,
        {
            let p = self.walkable[i];
            if !self.is_occupied(p) {
                proof {
                    assert(0 <= i < self.walkable@.len() && self.walkable@[i as int] == p
                        && !pos_occupied(self.entries_view(), p) && (forall|j: int|
                        0 <= j < i ==> pos_occupied(
                            self.entries_view(),
                            #[trigger] self.walkable@[j],
                        )));
                }
                return Some(p);
            }
            i += 1;
        }
        None
    }

    /// Whether some actor stands at the given position.
    pub fn is_occupied(&self, p: Vec2) -> (r: bool)
        ensures
            r == self.occupied(p),
    {
        let mut i: usize = 0;
        while i < self.entries.len()
            invariant
                i <= self.entries@.len(),
                forall|k: int| 0 <= k < i ==> (#[trigger] self.entries@[k]).1.position != p,
            decreases self.entries@.len() - i,
        {
            if self.entries[i].1.position.0 == p.0 && self.entries[i].1.position.1 == p.1 {
                return true;
            }
            i += 1;
        }
        false
    }

    /// The walkable tiles, for route finding.
    pub fn walkable(&self) -> (r: &Vec<Vec2>)
        ensures
            r@ == self.walkable_view(),
    {
        &self.walkable
    }

    /// Copies the full transform table, for inclusion in a snapshot.
    pub fn clone_transforms(&self) -> (r: Vec<(u32, Transform)>)
        ensures
            r@ == self.entries_view(),
    {
        let mut out: Vec<(u32, Transform)> = Vec::new();
        let mut i: usize = 0;
        while i < self.entries.len()
            invariant
                i <= self.entries@.len(),
                out@ == self.entries@.subrange(0, i as int),
            decreases self.entries@.len() - i,
        {
            out.push(self.entries[i]);
            i += 1;
        }
        proof {
            assert(out@ == self.entries@);
        }
        out
    }
}

} // verus!
