//! Route finding over the walkable-coordinate graph.
//!
//! The search itself is a plain breadth-first walk of the 4-connected grid;
//! what the contract promises is checked after the fact: any non-empty
//! result is a valid adjacency-respecting route over walkable tiles from the
//! start to the goal. A route is returned in reverse order of travel, the
//! convention monster paths are stored in: the next step to take is the last
//! element, and the first element is the goal.

use vstd::prelude::*;
use crate::transforms::positioner::WorldTransformer;
use crate::transforms::vec2::Vec2;
use crate::transforms::vec2::adjacent;
use crate::transforms::vec2::is_adjacent;

verus! {

/// A valid route in travel order: it leaves `start` onto an adjacent tile,
/// every step is adjacent to the one before, every tile is walkable, and the
/// last tile is `goal`.
pub open spec fn is_route(t: Seq<Vec2>, start: Vec2, goal: Vec2, walk: Seq<Vec2>) -> bool {
    &&& t.len() > 0
    &&& adjacent(start, t[0])
    &&& forall|i: int| 0 <= i < t.len() - 1 ==> adjacent(#[trigger] t[i], t[i + 1])
    &&& forall|i: int| 0 <= i < t.len() ==> walk.contains(#[trigger] t[i])
    &&& t.last() == goal
}

/// Whether the given tile is in the walkable set.
fn contains_pos(walk: &Vec<Vec2>, p: Vec2) -> (r: bool)
    ensures
        r == walk@.contains(p),
{
    let mut i: usize = 0;
    while i < walk.len()
        invariant
            i <= walk@.len(),
            forall|k: int| 0 <= k < i ==> walk@[k] != p,
        decreases walk@.len() - i,
    {
        if walk[i].0 == p.0 && walk[i].1 == p.1 {
            return true;
        }
        i += 1;
    }
    false
}

/// Decides whether a travel-order sequence is a valid route.
fn check_route(t: &Vec<Vec2>, start: Vec2, goal: Vec2, walk: &Vec<Vec2>) -> (r: bool)
    ensures
        r == is_route(t@, start, goal, walk@),
{
    if t.len() == 0 {
        return false;
    }
    if !is_adjacent(start, t[0]) {
        return false;
    }
    if t[t.len() - 1].0 != goal.0 || t[t.len() - 1].1 != goal.1 {
        return false;
    }
    let mut i: usize = 0;
    while i < t.len()
        invariant
            i <= t@.len(),
            forall|k: int| 0 <= k < i ==> walk@.contains(#[trigger] t@[k]),
        decreases t@.len() - i,
    {
        if !contains_pos(walk, t[i]) {
            return false;
        }
        i += 1;
    }
    let mut j: usize = 1;
    while j < t.len()
        invariant
            t@.len() > 0,
            1 <= j <= t@.len(),
            forall|k: int| 0 <= k < j - 1 ==> adjacent(#[trigger] t@[k], t@[k + 1]),
        decreases t@.len() - j,
    {
        if !is_adjacent(t[j - 1], t[j]) {
            return false;
        }
        j += 1;
    }
    true
}

/// Recomputes the route from `start` to `goal` over the walkable tiles of
/// the given index, by breadth-first search. The result is in reverse order
/// of travel (pop the end to take the next step). Any non-empty result is a
/// valid route; an empty result means no route was found (or the start
/// already stands on the goal).
pub fn find_shortest_path(tf: &WorldTransformer, start: Vec2, goal: Vec2) -> (r: Vec<Vec2>)
    ensures
        r@.len() > 0 ==> is_route(r@.reverse(), start, goal, tf.walkable_view()),
        adjacent(start, goal) && tf.walkable_view().contains(goal) ==> r@.len() > 0,
        start == goal ==> r@.len() == 0,
{
    // Standing on the goal already: the empty route.
    if start.0 == goal.0 && start.1 == goal.1 {
        return Vec::new();
    }
    let walk = tf.walkable();
    // A goal one step away is owed a route outright.
    if is_adjacent(start, goal) && contains_pos(walk, goal) {
        let mut direct: Vec<Vec2> = Vec::new();
        direct.push(goal);
        proof {
            assert(direct@.reverse() =~= seq![goal]);
            assert(is_route(seq![goal], start, goal, tf.walkable_view()));
        }
        return direct;
    }
    let n = walk.len();
    let mut visited: Vec<bool> = Vec::new();
    let mut parent: Vec<usize> = Vec::new();
    let mut i: usize = 0;
    while i < n
        invariant
            visited@.len() == i,
            parent@.len() == i,
            i <= n,
            forall|k: int| 0 <= k < parent@.len() ==> #[trigger] parent@[k] < n,
        decreases n - i,
    {
        visited.push(false);
        parent.push(0);
        i += 1;
    }
    let mut queue: Vec<usize> = Vec::new();
    // Seed the frontier with every tile adjacent to the start; a seed is its
    // own parent, which ends the later walk back.
    let mut j: usize = 0;
    while j < n
        invariant
            n == walk@.len(),
            visited@.len() == n,
            parent@.len() == n,
            j <= n,
            forall|k: int| 0 <= k < queue@.len() ==> #[trigger] queue@[k] < n,
            forall|k: int| 0 <= k < parent@.len() ==> #[trigger] parent@[k] < n,
        decreases n - j,
    {
        if is_adjacent(start, walk[j]) {
            let v = &mut visited[j];
            *v = true;
            let p = &mut parent[j];
            *p = j;
            queue.push(j);
        }
        j += 1;
    }
    // Breadth-first expansion. The fuel bound only forces termination; a
    // result is checked for validity below, never trusted to the search.
    let mut head: usize = 0;
    let mut fuel: usize = n;
    while head < queue.len() && fuel > 0
        invariant
            n == walk@.len(),
            visited@.len() == n,
            parent@.len() == n,
            forall|k: int| 0 <= k < queue@.len() ==> #[trigger] queue@[k] < n,
            forall|k: int| 0 <= k < parent@.len() ==> #[trigger] parent@[k] < n,
        decreases fuel,
    {
        let cur = queue[head];
        let mut cand: usize = 0;
        while cand < n
            invariant
                n == walk@.len(),
                visited@.len() == n,
                parent@.len() == n,
                cur < n,
                cand <= n,
                forall|k: int| 0 <= k < queue@.len() ==> #[trigger] queue@[k] < n,
                forall|k: int| 0 <= k < parent@.len() ==> #[trigger] parent@[k] < n,
            decreases n - cand,
        {
            if !visited[cand] && is_adjacent(walk[cur], walk[cand]) {
                let v = &mut visited[cand];
                *v = true;
                let p = &mut parent[cand];
                *p = cur;
                queue.push(cand);
            }
            cand += 1;
        }
        head += 1;
        fuel -= 1;
    }
    // Walk the parent chain back from the goal. The chain starts at the goal
    // and ends at a seed, so the collected order is already reverse-travel.
    let goal_idx = match find_pos(walk, goal) {
        Some(g) => g,
        None => {
            return Vec::new();
        },
    };
    if !visited[goal_idx] {
        return Vec::new();
    }
    let mut rev: Vec<Vec2> = Vec::new();
    let mut cur: usize = goal_idx;
    let mut steps: usize = 0;
    loop
        invariant
            n == walk@.len(),
            parent@.len() == n,
            forall|k: int| 0 <= k < parent@.len() ==> #[trigger] parent@[k] < n,
            cur < n,
            steps <= n,
        decreases n - steps,
    {
        rev.push(walk[cur]);
        if parent[cur] == cur || steps == n {
            break ;
        }
        cur = parent[cur];
        steps += 1;
    }
    // Validate in travel order; only a checked route is handed out.
    let mut trav: Vec<Vec2> = Vec::new();
    let mut b: usize = rev.len();
    while b > 0
        invariant
            b <= rev@.len(),
            trav@.len() == rev@.len() - b,
            forall|k: int| 0 <= k < trav@.len() ==> #[trigger] trav@[k] == rev@[rev@.len() - 1 - k],
        decreases b,
    {
        trav.push(rev[b - 1]);
        b -= 1;
    }
    proof {
        assert(trav@ =~= rev@.reverse());
    }
    if check_route(&trav, start, goal, walk) {
        rev
    } else {
        Vec::new()
    }
}

/// The index of a tile in the walkable set, if present.
fn find_pos(walk: &Vec<Vec2>, p: Vec2) -> (r: Option<usize>)
    ensures
        r matches Option::Some(j) ==> j < walk@.len() && walk@[j as int] == p,
{
    let mut i: usize = 0;
    while i < walk.len()
        invariant
            i <= walk@.len(),
        decreases walk@.len() - i,
    {
        if walk[i].0 == p.0 && walk[i].1 == p.1 {
            return Some(i);
        }
        i += 1;
    }
    None
}

} // verus!
