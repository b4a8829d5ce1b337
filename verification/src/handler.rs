//! The authoritative core: world state, request handling, and the per-tick
//! AI pass.
//!
//! One owner (the embedding program's loop thread) holds the [`WorldState`]
//! exclusively and applies at most one request per tick through
//! [`handle_request`], then advances every monster's AI unit once through
//! [`tick_monsters`]. A faulty request — an id already taken, an unknown
//! player, a full dungeon — degrades to a dropped request and never disturbs
//! the rest of the world.

use vstd::prelude::*;
use rand::RngCore;
use crate::ai::AiUnit;
use crate::ai::advance;
use crate::ai::spec_advance;
use crate::astar::find_shortest_path;
use crate::astar::is_route;
use crate::catalog::MonsterCatalog;
use crate::catalog::select_template;
use crate::dungeon::Dungeon;
use crate::monsters::MonsterInstance;
use crate::players::Player;
use crate::snapshot::StateSnapshot;
use crate::transforms::positioner::WorldTransformer;
use crate::transforms::positioner::first_open_spot;
use crate::transforms::positioner::key_idx;
use crate::transforms::positioner::lemma_tr_push_many;
use crate::transforms::positioner::lemma_tr_upd_many;
use crate::transforms::positioner::pos_occupied;
use crate::transforms::positioner::seq_has;
use crate::transforms::positioner::seq_tr;
use crate::transforms::positioner::upd;
use crate::transforms::transform::Direction;
use crate::transforms::transform::Transform;
use crate::transforms::vec2::Vec2;
use crate::transforms::vec2::adjacent;
use crate::types::RequestType;
use crate::types::ResponseType;

verus! {

/// The mutable aggregate of the whole simulation: players, live monsters,
/// their AI units (one per monster, at the same index), and the transform
/// index. The dungeon and the catalog are fixed at construction.
pub struct WorldState {
    pub dungeon: Dungeon,
    pub catalog: MonsterCatalog,
    pub players: Vec<Player>,
    pub monsters: Vec<MonsterInstance>,
    pub ai_units: Vec<AiUnit>,
    pub transformer: WorldTransformer,
}

impl WorldState {
    /// The standing invariant of the world: ids are unique, every live actor
    /// has exactly one transform entry, player and monster ids never clash,
    /// each monster has exactly one AI unit, and no two monsters share a
    /// tile.
    pub open spec fn wf(self) -> bool {
        &&& self.catalog.wf()
        &&& self.transformer.wf()
        &&& self.ai_units@.len() == self.monsters@.len()
        &&& forall|i: int, j: int|
            0 <= i < j < self.players@.len() ==> (#[trigger] self.players@[i]).id != (
            #[trigger] self.players@[j]).id
        &&& forall|i: int, j: int|
            0 <= i < j < self.monsters@.len() ==> (#[trigger] self.monsters@[i]).instance_id != (
            #[trigger] self.monsters@[j]).instance_id
        &&& forall|i: int|
            0 <= i < self.players@.len() ==> self.transformer.has_id(
                (#[trigger] self.players@[i]).id,
            )
        &&& forall|i: int|
            0 <= i < self.monsters@.len() ==> self.transformer.has_id(
                (#[trigger] self.monsters@[i]).instance_id,
            )
        &&& forall|i: int, j: int|
            0 <= i < self.players@.len() && 0 <= j < self.monsters@.len() ==> (
            #[trigger] self.players@[i]).id != (#[trigger] self.monsters@[j]).instance_id
        &&& forall|i: int, j: int|
            0 <= i < j < self.monsters@.len() ==> self.transformer.tr_of(
                (#[trigger] self.monsters@[i]).instance_id,
            ).position != self.transformer.tr_of(
                (#[trigger] self.monsters@[j]).instance_id,
            ).position
    }

    /// There is a player with the given id.
    pub open spec fn has_player(self, id: u32) -> bool {
        exists|i: int| 0 <= i < self.players@.len() && (#[trigger] self.players@[i]).id == id
    }
}

/// Nothing observable about the world changed.
pub open spec fn unchanged(a: WorldState, b: WorldState) -> bool {
    &&& b.players@ == a.players@
    &&& b.monsters@ == a.monsters@
    &&& b.ai_units@ == a.ai_units@
    &&& b.transformer.entries_view() == a.transformer.entries_view()
    &&& b.transformer.walkable_view() == a.transformer.walkable_view()
    &&& b.dungeon == a.dungeon
    &&& b.catalog == a.catalog
}

/// Everything but the transform index and the player list is kept.
pub open spec fn same_static_parts(a: WorldState, b: WorldState) -> bool {
    &&& b.monsters@ == a.monsters@
    &&& b.ai_units@ == a.ai_units@
    &&& b.transformer.walkable_view() == a.transformer.walkable_view()
    &&& b.dungeon == a.dungeon
    &&& b.catalog == a.catalog
}

/// What a snapshot for a newly admitted player holds: the new player's own
/// entry at the entrance, every previously connected player with its
/// position, every live monster with its position, the dungeon layout, and
/// the full transform table including the new entry.
pub open spec fn snapshot_post(a: WorldState, s: StateSnapshot, addr: Seq<char>, id: u32) -> bool {
    &&& s.addr_for@ == addr
    &&& s.new_player.0 == id
    &&& s.new_player.1@ == Seq::<char>::empty()
    &&& s.new_player.2 == a.dungeon.entrance
    &&& s.other_players@.len() == a.players@.len()
    &&& forall|i: int|
        0 <= i < a.players@.len() ==> (#[trigger] s.other_players@[i]).0 == a.players@[i].id
            && s.other_players@[i].1@ == a.players@[i].name@ && s.other_players@[i].2 == seq_tr(
            a.transformer.entries_view(),
            a.players@[i].id,
        ).position
    &&& s.monsters@.len() == a.monsters@.len()
    &&& forall|i: int|
        0 <= i < a.monsters@.len() ==> (#[trigger] s.monsters@[i]) == ((
        a.monsters@[i].template.id,
        a.monsters@[i].instance_id,
        seq_tr(a.transformer.entries_view(), a.monsters@[i].instance_id).position,
        ))
    &&& s.dungeon.entrance == a.dungeon.entrance
    &&& s.dungeon.paths@ == a.dungeon.paths@
    &&& s.all_player_ts@ == a.transformer.entries_view().push(
        (id, Transform { position: a.dungeon.entrance, direction: Direction::Left }),
    )
}

/// Admitting a player with a fresh id appends it (empty name, at the
/// entrance, facing left) and answers with exactly one snapshot; a taken id
/// leaves the world untouched and answers nothing.
pub open spec fn new_player_post(
    a: WorldState,
    b: WorldState,
    addr: Seq<char>,
    id: u32,
    r: Option<ResponseType>,
) -> bool {
    if seq_has(a.transformer.entries_view(), id) {
        unchanged(a, b) && r is None
    } else {
        &&& same_static_parts(a, b)
        &&& b.players@.len() == a.players@.len() + 1
        &&& forall|i: int| 0 <= i < a.players@.len() ==> b.players@[i] == a.players@[i]
        &&& b.players@.last().id == id
        &&& b.players@.last().name@ == Seq::<char>::empty()
        &&& b.transformer.entries_view() == a.transformer.entries_view().push(
            (id, Transform { position: a.dungeon.entrance, direction: Direction::Left }),
        )
        &&& r matches Option::Some(ResponseType::StateSnapshot(s)) && snapshot_post(a, s, addr, id)
    }
}

/// Moving a known player overwrites exactly its transform entry with the
/// given one, unvalidated; moving an unknown id changes nothing. No response
/// either way.
pub open spec fn player_moved_post(
    a: WorldState,
    b: WorldState,
    id: u32,
    t: Transform,
    r: Option<ResponseType>,
) -> bool {
    &&& r is None
    &&& if a.has_player(id) {
        &&& same_static_parts(a, b)
        &&& b.players@ == a.players@
        &&& b.transformer.entries_view() == upd(a.transformer.entries_view(), id, t)
    } else {
        unchanged(a, b)
    }
}

/// Every walkable tile has an actor on it.
pub open spec fn all_walkable_occupied(a: WorldState) -> bool {
    forall|k: int|
        0 <= k < a.transformer.walkable_view().len() ==> pos_occupied(
            a.transformer.entries_view(),
            #[trigger] a.transformer.walkable_view()[k],
        )
}

/// One successful spawn: template `k` of the catalog was selected, the new
/// instance carries the requested id with a fresh path and no target, it is
/// registered on a previously free walkable tile `p` facing right, its AI
/// unit starts idle, and the one response announces it.
pub open spec fn spawn_ok(
    a: WorldState,
    b: WorldState,
    id: u32,
    r: Option<ResponseType>,
    k: int,
    p: Vec2,
) -> bool {
    &&& 0 <= k < a.catalog.templates@.len()
    &&& a.transformer.walkable_view().contains(p)
    &&& !pos_occupied(a.transformer.entries_view(), p)
    &&& first_open_spot(a.transformer.walkable_view(), a.transformer.entries_view(), p)
    &&& b.monsters@.len() == a.monsters@.len() + 1
    &&& forall|i: int| 0 <= i < a.monsters@.len() ==> b.monsters@[i] == a.monsters@[i]
    &&& b.monsters@.last().template == a.catalog.templates@[k]
    &&& b.monsters@.last().instance_id == id
    &&& b.monsters@.last().path@.len() == 0
    &&& b.monsters@.last().combat_target is None
    &&& b.ai_units@ == a.ai_units@.push(AiUnit::Idle)
    &&& b.players@ == a.players@
    &&& b.transformer.entries_view() == a.transformer.entries_view().push(
        (id, Transform { position: p, direction: Direction::Right }),
    )
    &&& b.transformer.walkable_view() == a.transformer.walkable_view()
    &&& b.dungeon == a.dungeon
    &&& b.catalog == a.catalog
    &&& r == Option::Some(
        ResponseType::NewMonster(a.catalog.templates@[k].id, id, p, Direction::Right),
    )
}

/// Spawning with a taken id, or with no free walkable tile left, changes
/// nothing and answers nothing; otherwise exactly one monster is spawned as
/// [`spawn_ok`] says.
pub open spec fn spawn_post(
    a: WorldState,
    b: WorldState,
    id: u32,
    r: Option<ResponseType>,
) -> bool {
    &&& seq_has(a.transformer.entries_view(), id) ==> unchanged(a, b) && r is None
    &&& !seq_has(a.transformer.entries_view(), id) && all_walkable_occupied(a) ==> unchanged(a, b)
        && r is None
    &&& !seq_has(a.transformer.entries_view(), id) && !all_walkable_occupied(a) ==> exists|
        k: int,
        p: Vec2,
    |
        spawn_ok(a, b, id, r, k, p)
}

/// One monster after a whole-world path request: identity, target and clock
/// are untouched, and any non-empty new path is a valid route from the
/// monster's pre-request position to the requested target.
pub open spec fn monster_retargeted(
    m0: MonsterInstance,
    m1: MonsterInstance,
    from: Vec2,
    target: Vec2,
    walk: Seq<Vec2>,
) -> bool {
    &&& m1.template == m0.template
    &&& m1.instance_id == m0.instance_id
    &&& m1.combat_target == m0.combat_target
    &&& m1.last_sighting == m0.last_sighting
    &&& m1.path@.len() > 0 ==> is_route(m1.path@.reverse(), from, target, walk)
    &&& adjacent(from, target) && walk.contains(target) ==> m1.path@.len() > 0
    &&& from == target ==> m1.path@.len() == 0
}

/// A path request touches every live monster's path, exactly once each, and
/// nothing else. No response.
pub open spec fn astar_post(
    a: WorldState,
    b: WorldState,
    target: Vec2,
    r: Option<ResponseType>,
) -> bool {
    &&& r is None
    &&& b.players@ == a.players@
    &&& b.ai_units@ == a.ai_units@
    &&& b.transformer.entries_view() == a.transformer.entries_view()
    &&& b.transformer.walkable_view() == a.transformer.walkable_view()
    &&& b.dungeon == a.dungeon
    &&& b.catalog == a.catalog
    &&& b.monsters@.len() == a.monsters@.len()
    &&& forall|i: int|
        0 <= i < a.monsters@.len() ==> monster_retargeted(
            #[trigger] a.monsters@[i],
            b.monsters@[i],
            seq_tr(a.transformer.entries_view(), a.monsters@[i].instance_id).position,
            target,
            a.transformer.walkable_view(),
        )
}

/// What one request does to the world: the per-variant contract.
pub open spec fn request_post(
    a: WorldState,
    b: WorldState,
    req: RequestType,
    r: Option<ResponseType>,
) -> bool {
    match req {
        RequestType::NewPlayer(addr, id) => new_player_post(a, b, addr@, id, r),
        RequestType::PlayerMoved(id, t) => player_moved_post(a, b, id, t, r),
        RequestType::SpawnMonster(id) => spawn_post(a, b, id, r),
        RequestType::AStar(target) => astar_post(a, b, target, r),
    }
}

/// LAW: monster instance ids are stable and unique. Whatever one request
/// does to a well-formed world, every monster that was alive keeps its id
/// and its place, and no two live monsters ever share an id.
pub proof fn lemma_monster_ids_stable_unique(
    a: WorldState,
    b: WorldState,
    req: RequestType,
    r: Option<ResponseType>,
)
    requires
        a.wf(),
        b.wf(),
        request_post(a, b, req, r),
    ensures
        b.monsters@.len() >= a.monsters@.len(),
        forall|i: int|
            0 <= i < a.monsters@.len() ==> (#[trigger] b.monsters@[i]).instance_id == (
            #[trigger] a.monsters@[i]).instance_id,
        forall|i: int, j: int|
            0 <= i < j < b.monsters@.len() ==> (#[trigger] b.monsters@[i]).instance_id != (
            #[trigger] b.monsters@[j]).instance_id,
{
    match req {
        RequestType::NewPlayer(addr, id) => {
            if seq_has(a.transformer.entries_view(), id) {
                assert(b.monsters@ == a.monsters@);
            }
        },
        RequestType::PlayerMoved(id, t) => {},
        RequestType::SpawnMonster(id) => {
            if !seq_has(a.transformer.entries_view(), id) && !all_walkable_occupied(a) {
                let (k, p) = choose|k: int, p: Vec2| spawn_ok(a, b, id, r, k, p);
                assert(spawn_ok(a, b, id, r, k, p));
            }
        },
        RequestType::AStar(target) => {},
    }
}

/// Draws one machine word from the process-wide generator.
///
/// Relies on `rand::thread_rng` handing out the thread-local generator and
/// on `RngCore::next_u32` returning its next word. The value is random:
/// nothing is promised of it, and every caller is correct for every outcome.
#[verifier::external_body]
fn random_u32() -> u32 {
    rand::thread_rng().next_u32()
}

/// Builds an empty world over the given dungeon and catalog: no players, no
/// monsters, and a transform index over the dungeon's walkable tiles.
pub fn new_world(dungeon: Dungeon, catalog: MonsterCatalog) -> (w: WorldState)
    requires
        catalog.wf(),
    ensures
        w.wf(),
        w.players@.len() == 0,
        w.monsters@.len() == 0,
        w.ai_units@.len() == 0,
        w.transformer.entries_view().len() == 0,
        w.transformer.walkable_view() == dungeon.paths@,
        w.dungeon == dungeon,
        w.catalog == catalog,
{
    let walk = dungeon.duplicate();
    let Dungeon { entrance: _, paths } = walk;
    let transformer = WorldTransformer::new(paths);
    WorldState {
        dungeon,
        catalog,
        players: Vec::new(),
        monsters: Vec::new(),
        ai_units: Vec::new(),
        transformer,
    }
}

/// The rows of the player table for a snapshot: id, name, position.
fn collect_players(players: &Vec<Player>, tf: &WorldTransformer) -> (r: Vec<(u32, String, Vec2)>)
    requires
        tf.wf(),
        forall|i: int| 0 <= i < players@.len() ==> tf.has_id((#[trigger] players@[i]).id),
    ensures
        r@.len() == players@.len(),
        forall|i: int|
            0 <= i < players@.len() ==> (#[trigger] r@[i]).0 == players@[i].id && r@[i].1@
                == players@[i].name@ && r@[i].2 == tf.tr_of(players@[i].id).position,
{
    let mut out: Vec<(u32, String, Vec2)> = Vec::new();
    let mut i: usize = 0;
    while i < players.len()
        invariant
            tf.wf(),
            forall|k: int| 0 <= k < players@.len() ==> tf.has_id((#[trigger] players@[k]).id),
            i <= players@.len(),
            out@.len() == i,
            forall|k: int|
                0 <= k < i ==> (#[trigger] out@[k]).0 == players@[k].id && out@[k].1@
                    == players@[k].name@ && out@[k].2 == tf.tr_of(players@[k].id).position,
        decreases players@.len() - i,
    {
        let id = players[i].id;
        let name = players[i].name.clone();
        let t = tf.transform(id).unwrap();
        out.push((id, name, t.position));
        i += 1;
    }
    out
}

/// The rows of the monster table for a snapshot: template id, instance id,
/// position.
fn collect_monsters(monsters: &Vec<MonsterInstance>, tf: &WorldTransformer) -> (r: Vec<
    (u32, u32, Vec2),
>)
    requires
        tf.wf(),
        forall|i: int|
            0 <= i < monsters@.len() ==> tf.has_id((#[trigger] monsters@[i]).instance_id),
    ensures
        r@.len() == monsters@.len(),
        forall|i: int|
            0 <= i < monsters@.len() ==> (#[trigger] r@[i]) == ((
            monsters@[i].template.id,
            monsters@[i].instance_id,
            tf.tr_of(monsters@[i].instance_id).position,
            )),
{
    let mut out: Vec<(u32, u32, Vec2)> = Vec::new();
    let mut i: usize = 0;
    while i < monsters.len()
        invariant
            tf.wf(),
            forall|k: int|
                0 <= k < monsters@.len() ==> tf.has_id((#[trigger] monsters@[k]).instance_id),
            i <= monsters@.len(),
            out@.len() == i,
            forall|k: int|
                0 <= k < i ==> (#[trigger] out@[k]) == ((
                monsters@[k].template.id,
                monsters@[k].instance_id,
                tf.tr_of(monsters@[k].instance_id).position,
                )),
        decreases monsters@.len() - i,
    {
        let tid = monsters[i].template.id;
        let iid = monsters[i].instance_id;
        let t = tf.transform(iid).unwrap();
        out.push((tid, iid, t.position));
        i += 1;
    }
    out
}

/// Whether some player carries the given id.
fn find_player(players: &Vec<Player>, id: u32) -> (r: bool)
    ensures
        r == exists|i: int| 0 <= i < players@.len() && (#[trigger] players@[i]).id == id,
{
    let mut i: usize = 0;
    while i < players.len()
        invariant
            i <= players@.len(),
            forall|k: int| 0 <= k < i ==> (#[trigger] players@[k]).id != id,
        decreases players@.len() - i,
    {
        if players[i].id == id {
            return true;
        }
        i += 1;
    }
    false
}

/// Admits a new player at the dungeon entrance and builds its snapshot. A
/// request with an id already registered to any actor is dropped.
pub fn handle_new_player(world: &mut WorldState, addr: String, id: u32) -> (r: Option<
    ResponseType,
>)
    requires
        old(world).wf(),
    ensures
        final(world).wf(),
        new_player_post(*old(world), *final(world), addr@, id, r),
{
    if world.transformer.contains_id(id) {
        return None;
    }
    let ghost s0 = world.transformer.entries_view();
    let other_players = collect_players(&world.players, &world.transformer);
    let snap_monsters = collect_monsters(&world.monsters, &world.transformer);
    let entrance = world.dungeon.entrance;
    let t = Transform::with_values(entrance, Direction::Left);
    if !world.transformer.add(id, t) {
        // Unreachable: the id was checked to be fresh. Degrade, never crash.
        return None;
    }
    proof {
        lemma_tr_push_many(s0, (id, t));
    }
    world.players.push(Player::new(id, String::new()));
    let all_player_ts = world.transformer.clone_transforms();
    let snapshot = StateSnapshot {
        addr_for: addr,
        new_player: (id, String::new(), entrance),
        other_players,
        monsters: snap_monsters,
        dungeon: world.dungeon.duplicate(),
        all_player_ts,
    };
    proof {
        assert forall|i: int, j: int|
            0 <= i < j < world.monsters@.len() implies world.transformer.tr_of(
            (#[trigger] world.monsters@[i]).instance_id,
        ).position != world.transformer.tr_of(
            (#[trigger] world.monsters@[j]).instance_id,
        ).position by {
            let mi = world.monsters@[i].instance_id;
            let mj = world.monsters@[j].instance_id;
            assert(seq_has(s0, mi) && seq_has(s0, mj));
            let wi = key_idx(s0, mi);
            let wj = key_idx(s0, mj);
            assert(s0.push((id, t))[wi].0 == mi);
            assert(s0.push((id, t))[wj].0 == mj);
            assert(seq_has(s0.push((id, t)), mi) && seq_has(s0.push((id, t)), mj));
        }
    }
    Some(ResponseType::StateSnapshot(snapshot))
}

/// Overwrites a known player's transform, unvalidated; a request for an
/// unknown or non-player id is dropped.
pub fn handle_player_moved(world: &mut WorldState, id: u32, t: Transform) -> (r: Option<
    ResponseType,
>)
    requires
        old(world).wf(),
    ensures
        final(world).wf(),
        player_moved_post(*old(world), *final(world), id, t, r),
{
    if !find_player(&world.players, id) {
        return None;
    }
    let ghost s0 = world.transformer.entries_view();
    if !world.transformer.change(id, t) {
        // Unreachable: a listed player is always registered. Degrade, never
        // crash.
        return None;
    }
    proof {
        lemma_tr_upd_many(s0, id, t);
        assert forall|i: int, j: int|
            0 <= i < j < world.monsters@.len() implies world.transformer.tr_of(
            (#[trigger] world.monsters@[i]).instance_id,
        ).position != world.transformer.tr_of(
            (#[trigger] world.monsters@[j]).instance_id,
        ).position by {
            assert(seq_has(s0, world.monsters@[i].instance_id));
            assert(seq_has(s0, world.monsters@[j].instance_id));
            assert(world.monsters@[i].instance_id != id && world.monsters@[j].instance_id != id);
        }
    }
    None
}

/// Spawns one monster: picks a template by weighted draw, finds a free
/// walkable tile, registers the transform, creates the instance and its
/// idle AI unit, and announces the spawn. A taken id or a full dungeon
/// drops the request.
pub fn handle_spawn_monster(world: &mut WorldState, id: u32) -> (r: Option<ResponseType>)
    requires
        old(world).wf(),
    ensures
        final(world).wf(),
        spawn_post(*old(world), *final(world), id, r),
{
    if world.transformer.contains_id(id) {
        return None;
    }
    let spot = match world.transformer.open_spot() {
        Some(p) => p,
        None => {
            return None;
        },
    };
    let raw = random_u32();
    let k = select_template(&world.catalog, raw);
    let template = world.catalog.templates[k];
    let ghost s0 = world.transformer.entries_view();
    let t = Transform::with_values(spot, Direction::Right);
    if !world.transformer.add(id, t) {
        // Unreachable: the id was checked to be fresh. Degrade, never crash.
        return None;
    }
    proof {
        lemma_tr_push_many(s0, (id, t));
    }
    let instance = MonsterInstance::new(template, id);
    let resp = ResponseType::NewMonster(template.id, id, spot, Direction::Right);
    world.ai_units.push(AiUnit::Idle);
    world.monsters.push(instance);
    proof {
        assert forall|i: int, j: int|
            0 <= i < j < world.monsters@.len() implies world.transformer.tr_of(
            (#[trigger] world.monsters@[i]).instance_id,
        ).position != world.transformer.tr_of(
            (#[trigger] world.monsters@[j]).instance_id,
        ).position by {
            let mi = world.monsters@[i].instance_id;
            assert(seq_has(s0, mi));
            let wi = key_idx(s0, mi);
            assert(s0.push((id, t))[wi].0 == mi);
            assert(seq_has(s0.push((id, t)), mi));
            if j < world.monsters@.len() - 1 {
                let mj = world.monsters@[j].instance_id;
                assert(seq_has(s0, mj));
                let wj = key_idx(s0, mj);
                assert(s0.push((id, t))[wj].0 == mj);
                assert(seq_has(s0.push((id, t)), mj));
            } else {
                // The new monster stands on a tile that was free, while
                // monster `i` stands where its old entry already was.
                assert(seq_tr(s0, mi) == s0[wi].1);
                assert(pos_occupied(s0, s0[wi].1.position));
            }
        }
        assert(spawn_ok(*old(world), *world, id, Some(resp), k as int, spot));
    }
    Some(resp)
}

/// Recomputes every live monster's path as a route from its current
/// position to the target, overwriting any previous path.
pub fn handle_astar(world: &mut WorldState, target: Vec2) -> (r: Option<ResponseType>)
    requires
        old(world).wf(),
    ensures
        final(world).wf(),
        astar_post(*old(world), *final(world), target, r),
{
    let n = world.monsters.len();
    let mut i: usize = 0;
    while i < n
        invariant
            old(world).wf(),
            n == old(world).monsters@.len(),
            i <= n,
            world.players@ == old(world).players@,
            world.ai_units@ == old(world).ai_units@,
            world.transformer == old(world).transformer,
            world.dungeon == old(world).dungeon,
            world.catalog == old(world).catalog,
            world.monsters@.len() == n,
            forall|j: int| i <= j < n ==> world.monsters@[j] == old(world).monsters@[j],
            forall|j: int|
                0 <= j < i ==> monster_retargeted(
                    #[trigger] old(world).monsters@[j],
                    world.monsters@[j],
                    seq_tr(
                        old(world).transformer.entries_view(),
                        old(world).monsters@[j].instance_id,
                    ).position,
                    target,
                    old(world).transformer.walkable_view(),
                ),
        decreases n - i,
    {
        let mid = world.monsters[i].instance_id;
        let tr = world.transformer.transform(mid).unwrap();
        let path = find_shortest_path(&world.transformer, tr.position, target);
        let m = &mut world.monsters[i];
        m.set_path(path);
        i += 1;
    }
    proof {
        assert(world.wf()) by {
            assert(forall|j: int|
                0 <= j < n ==> (#[trigger] world.monsters@[j]).instance_id == old(
                    world,
                ).monsters@[j].instance_id);
        }
    }
    None
}

/// One AI pass over the world: every monster advanced once, in place, and
/// nothing else moved.
pub open spec fn ticked(a: WorldState, b: WorldState, now: u64) -> bool {
    &&& b.monsters@.len() == a.monsters@.len()
    &&& forall|i: int|
        0 <= i < a.monsters@.len() ==> b.monsters@[i] == spec_advance(
            a.ai_units@[i],
            #[trigger] a.monsters@[i],
            now,
        )
    &&& b.players@ == a.players@
    &&& b.ai_units@ == a.ai_units@
    &&& b.transformer == a.transformer
    &&& b.dungeon == a.dungeon
    &&& b.catalog == a.catalog
}

/// Advances every live monster's AI unit exactly once, each with exclusive
/// access to its own instance, and reports how many were advanced. Runs
/// whether or not a request was handled this tick.
pub fn tick_monsters(world: &mut WorldState, now: u64) -> (advanced: usize)
    requires
        old(world).wf(),
    ensures
        final(world).wf(),
        advanced == old(world).monsters@.len(),
        ticked(*old(world), *final(world), now),
{
    let n = world.monsters.len();
    let mut i: usize = 0;
    while i < n
        invariant
            old(world).wf(),
            n == old(world).monsters@.len(),
            i <= n,
            world.players@ == old(world).players@,
            world.ai_units@ == old(world).ai_units@,
            world.transformer == old(world).transformer,
            world.dungeon == old(world).dungeon,
            world.catalog == old(world).catalog,
            world.monsters@.len() == n,
            forall|j: int| i <= j < n ==> world.monsters@[j] == old(world).monsters@[j],
            forall|j: int|
                0 <= j < i ==> world.monsters@[j] == spec_advance(
                    old(world).ai_units@[j],
                    #[trigger] old(world).monsters@[j],
                    now,
                ),
        decreases n - i,
    {
        let unit = world.ai_units[i];
        let m = &mut world.monsters[i];
        advance(&unit, m, now);
        i += 1;
    }
    proof {
        assert(world.monsters@ =~= old(world).monsters@);
    }
    n
}

/// Applies one request to the world and yields its response, if any. This
/// is the whole per-request state transition: the embedding loop only moves
/// messages and calls this.
pub fn handle_request(world: &mut WorldState, req: RequestType) -> (r: Option<ResponseType>)
    requires
        old(world).wf(),
    ensures
        final(world).wf(),
        request_post(*old(world), *final(world), req, r),
{
    match req {
        RequestType::NewPlayer(addr, id) => handle_new_player(world, addr, id),
        RequestType::PlayerMoved(id, t) => handle_player_moved(world, id, t),
        RequestType::SpawnMonster(id) => handle_spawn_monster(world, id),
        RequestType::AStar(target) => handle_astar(world, target),
    }
}

/// One whole tick: at most one pending request, then one AI advance for
/// every live monster. Returns the response (if the request produced one)
/// and how many monsters were advanced — always every live one, whether or
/// not a request was handled.
pub fn run_tick(world: &mut WorldState, req: Option<RequestType>, now: u64) -> (r: (
    Option<ResponseType>,
    usize,
))
    requires
        old(world).wf(),
    ensures
        final(world).wf(),
        r.1 == final(world).monsters@.len(),
        exists|mid: WorldState|
            {
                &&& #[trigger] mid.wf()
                &&& (req matches Option::Some(rq) ==> request_post(*old(world), mid, rq, r.0))
                &&& (req is None ==> mid == *old(world) && r.0 is None)
                &&& ticked(mid, *final(world), now)
            },
{
    let resp = match req {
        Some(rq) => handle_request(world, rq),
        None => None,
    };
    let ghost mid = *world;
    let advanced = tick_monsters(world, now);
    proof {
        assert(mid.wf() && ticked(mid, *world, now));
    }
    (resp, advanced)
}

} // verus!
