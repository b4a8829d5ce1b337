//! The monster catalog and the weighted-random template selection.
//!
//! Spawning draws a number `c` uniformly from `[1, total]`, where `total`
//! is the sum of all spawn weights, then walks the catalog in table order
//! subtracting each weight; the first template whose weight absorbs the
//! remainder is selected. Ties at a boundary go to the lowest index.

use vstd::prelude::*;
use crate::monsters::Monster;

verus! {

/// The spawn weights of a template table, in table order.
pub open spec fn weights_of(ts: Seq<Monster>) -> Seq<u32> {
    ts.map(|i: int, m: Monster| m.spawn_chance)
}

/// The sum of a sequence of weights.
pub open spec fn total_weight(ws: Seq<u32>) -> int
    decreases ws.len(),
{
    if ws.len() == 0 {
        0
    } else {
        ws[0] + total_weight(ws.drop_first())
    }
}

/// The index selected by a draw `c`: walk the table subtracting each weight
/// from the remaining draw; the first entry for which the remainder drops to
/// or below zero wins. The last entry absorbs any surplus.
pub open spec fn spec_select(ws: Seq<u32>, c: int) -> int
    decreases ws.len(),
{
    if ws.len() <= 1 {
        0
    } else if c <= ws[0] {
        0
    } else {
        1 + spec_select(ws.drop_first(), c - ws[0])
    }
}

/// The draw derived from a raw random value: uniform in `[1, total]`.
pub open spec fn spec_choice(ws: Seq<u32>, raw: u32) -> int {
    raw as int % total_weight(ws) + 1
}

/// A weight sum is never negative.
pub proof fn lemma_total_nonneg(ws: Seq<u32>)
    ensures
        total_weight(ws) >= 0,
    decreases ws.len(),
{
    if ws.len() > 0 {
        lemma_total_nonneg(ws.drop_first());
    }
}

/// The empty table sums to zero.
pub proof fn lemma_total_empty()
    ensures
        total_weight(Seq::<u32>::empty()) == 0,
{
}

/// A one-entry table sums to its entry.
pub proof fn lemma_total_single(x: u32)
    ensures
        total_weight(seq![x]) == x,
{
    assert(seq![x].drop_first() =~= Seq::<u32>::empty());
    lemma_total_empty();
}

/// Appending one weight adds it to the sum.
pub proof fn lemma_total_push(ws: Seq<u32>, x: u32)
    ensures
        total_weight(ws.push(x)) == total_weight(ws) + x,
    decreases ws.len(),
{
    if ws.len() == 0 {
        assert(ws.push(x) =~= seq![x]);
        lemma_total_single(x);
    } else {
        lemma_total_push(ws.drop_first(), x);
        assert(ws.push(x).drop_first() =~= ws.drop_first().push(x));
        assert(ws.push(x)[0] == ws[0]);
        assert(total_weight(ws.push(x)) == ws[0] + total_weight(ws.push(x).drop_first()));
    }
}

/// A weight sum splits at any cut point.
pub proof fn lemma_total_split(ws: Seq<u32>, k: int)
    requires
        0 <= k <= ws.len(),
    ensures
        total_weight(ws) == total_weight(ws.take(k)) + total_weight(ws.skip(k)),
    decreases k,
{
    if k == 0 {
        assert(ws.take(0) =~= Seq::<u32>::empty());
        assert(ws.skip(0) =~= ws);
    } else {
        lemma_total_split(ws.drop_first(), k - 1);
        assert(ws.take(k).drop_first() =~= ws.drop_first().take(k - 1));
        assert(ws.skip(k) =~= ws.drop_first().skip(k - 1));
        assert(ws.take(k)[0] == ws[0]);
    }
}

/// A prefix never sums to more than the whole.
pub proof fn lemma_total_prefix_le(ws: Seq<u32>, k: int)
    requires
        0 <= k <= ws.len(),
    ensures
        total_weight(ws.take(k)) <= total_weight(ws),
{
    lemma_total_split(ws, k);
    lemma_total_nonneg(ws.skip(k));
}

/// Prefix sums grow with the cut point.
pub proof fn lemma_total_prefix_mono(ws: Seq<u32>, a: int, b: int)
    requires
        0 <= a <= b <= ws.len(),
    ensures
        total_weight(ws.take(a)) <= total_weight(ws.take(b)),
{
    assert(ws.take(b).take(a) =~= ws.take(a));
    lemma_total_prefix_le(ws.take(b), a);
}

/// A draw within the total lands in the half-open weight interval of the
/// selected index: the selected `i` satisfies
/// `total_weight(ws.take(i)) < c <= total_weight(ws.take(i + 1))`,
/// and in particular `i` is a valid index.
pub proof fn lemma_select_interval(ws: Seq<u32>, c: int)
    requires
        ws.len() > 0,
        1 <= c <= total_weight(ws),
    ensures
        0 <= spec_select(ws, c) < ws.len(),
        total_weight(ws.take(spec_select(ws, c))) < c,
        c <= total_weight(ws.take(spec_select(ws, c) + 1)),
    decreases ws.len(),
{
    assert(ws.take(1) =~= seq![ws[0]]);
    lemma_total_single(ws[0]);
    lemma_total_empty();
    if ws.len() == 1 {
        assert(ws.take(0) =~= Seq::<u32>::empty());
        assert(ws.take(1) =~= ws);
    } else if c <= ws[0] {
        assert(ws.take(0) =~= Seq::<u32>::empty());
    } else {
        let tail = ws.drop_first();
        lemma_select_interval(tail, c - ws[0]);
        let i = spec_select(tail, c - ws[0]);
        assert(ws.take(1 + i).drop_first() =~= tail.take(i));
        assert(ws.take(1 + i + 1).drop_first() =~= tail.take(i + 1));
        assert(total_weight(ws.take(1 + i)) == ws[0] + total_weight(tail.take(i)));
        assert(total_weight(ws.take(1 + i + 1)) == ws[0] + total_weight(tail.take(i + 1)));
    }
}

/// LAW: selection hits index `i` exactly when the draw falls in template
/// `i`'s weight interval. Of the `total_weight(ws)` equally likely draws,
/// exactly `ws[i]` select index `i`, so the selection probability of each
/// template is proportional to its spawn weight.
pub proof fn lemma_selection_weight(ws: Seq<u32>, i: int, c: int)
    requires
        0 <= i < ws.len(),
        1 <= c <= total_weight(ws),
    ensures
        spec_select(ws, c) == i <==> (total_weight(ws.take(i)) < c && c <= total_weight(
            ws.take(i + 1),
        )),
{
    lemma_select_interval(ws, c);
    let j = spec_select(ws, c);
    if j < i {
        lemma_total_prefix_mono(ws, j + 1, i);
    }
    if j > i {
        lemma_total_prefix_mono(ws, i + 1, j);
    }
}

/// LAW: a catalog with a single template always selects it, whatever the
/// draw.
pub proof fn lemma_single_template(ws: Seq<u32>, c: int)
    requires
        ws.len() == 1,
    ensures
        spec_select(ws, c) == 0,
{
}

/// The static table of monster templates, fixed before the loop starts.
pub struct MonsterCatalog {
    pub templates: Vec<Monster>,
}

impl MonsterCatalog {
    /// The spawn weights of this catalog, in table order.
    pub open spec fn weights(self) -> Seq<u32> {
        weights_of(self.templates@)
    }

    /// A well-formed catalog is non-empty, every weight is positive, and the
    /// weight total fits a machine word.
    pub open spec fn wf(self) -> bool {
        &&& self.templates@.len() > 0
        &&& forall|i: int|
            0 <= i < self.templates@.len() ==> (#[trigger] self.templates@[i]).spawn_chance > 0
        &&& total_weight(self.weights()) <= u32::MAX
    }

    /// Builds a catalog after checking well-formedness: the table must be
    /// non-empty, with positive weights whose sum fits a machine word.
    pub fn new(templates: Vec<Monster>) -> (r: Option<MonsterCatalog>)
        ensures
            r matches Option::Some(c) ==> c.templates@ == templates@ && c.wf(),
            r is None ==> !(MonsterCatalog { templates }).wf(),
    {
        if templates.len() == 0 {
            return None;
        }
        let ws = Ghost(weights_of(templates@));
        let mut sum: u32 = 0;
        let mut i: usize = 0;
        while i < templates.len()
            invariant
                templates@.len() > 0,
                i <= templates@.len(),
                sum as int == total_weight(ws@.take(i as int)),
                ws@ == weights_of(templates@),
                forall|j: int| 0 <= j < i ==> (#[trigger] templates@[j]).spawn_chance > 0,
            decreases templates@.len() - i,
        {
            let w = templates[i].spawn_chance;
            if w == 0 {
                return None;
            }
            proof {
                assert(ws@.take(i + 1) =~= ws@.take(i as int).push(ws@[i as int]));
                lemma_total_push(ws@.take(i as int), ws@[i as int]);
            }
            if u32::MAX - sum < w {
                proof {
                    lemma_total_prefix_le(ws@, i + 1);
                }
                return None;
            }
            sum = sum + w;
            i = i + 1;
        }
        proof {
            assert(ws@.take(templates@.len() as int) =~= ws@);
        }
        Some(MonsterCatalog { templates })
    }

    /// The sum of all spawn weights.
    pub fn total(&self) -> (r: u32)
        requires
            self.wf(),
        ensures
            r as int == total_weight(self.weights()),
            r > 0,
    {
        let ghost ws = self.weights();
        let mut sum: u32 = 0;
        let mut i: usize = 0;
        while i < self.templates.len()
            invariant
                i <= self.templates@.len(),
                sum as int == total_weight(ws.take(i as int)),
                ws == self.weights(),
                self.wf(),
            decreases self.templates@.len() - i,
        {
            let w = self.templates[i].spawn_chance;
            proof {
                assert(ws.take(i + 1) =~= ws.take(i as int).push(ws[i as int]));
                lemma_total_push(ws.take(i as int), ws[i as int]);
                lemma_total_prefix_le(ws, i + 1);
            }
            sum = sum + w;
            i = i + 1;
        }
        proof {
            assert(ws.take(self.templates@.len() as int) =~= ws);
            assert(ws.take(1) =~= seq![ws[0]]);
            lemma_total_single(ws[0]);
            assert(ws[0] == self.templates@[0].spawn_chance);
            lemma_total_prefix_mono(ws, 1, ws.len() as int);
        }
        sum
    }
}

/// Picks the template index for a raw random value: the draw is
/// `raw % total + 1`, uniform in `[1, total]` for a uniform `raw`
/// over a span that is a multiple of `total`, and the walk subtracts
/// weights in table order until the draw is absorbed.
pub fn select_template(catalog: &MonsterCatalog, raw: u32) -> (idx: usize)
    requires
        catalog.wf(),
    ensures
        idx < catalog.templates@.len(),
        idx as int == spec_select(catalog.weights(), spec_choice(catalog.weights(), raw)),
{
    let ghost ws = catalog.weights();
    let total = catalog.total();
    let n: usize = catalog.templates.len();
    let c: u32 = raw % total + 1;
    proof {
        assert(c as int == spec_choice(ws, raw));
        assert(ws.skip(0) =~= ws);
    }
    let mut idx: usize = 0;
    let mut rem: u32 = c;
    loop
        invariant
            catalog.wf(),
            ws == catalog.weights(),
            n == ws.len(),
            c as int == spec_choice(ws, raw),
            idx < n,
            1 <= rem,
            rem as int <= total_weight(ws.skip(idx as int)),
            spec_select(ws, c as int) == idx + spec_select(ws.skip(idx as int), rem as int),
        decreases ws.len() - idx,
    {
        let w = catalog.templates[idx].spawn_chance;
        proof {
            assert(ws[idx as int] == w);
            assert(ws.skip(idx as int)[0] == w);
            assert(ws.skip(idx as int).drop_first() =~= ws.skip(idx + 1));
        }
        if rem <= w {
            proof {
                assert(spec_select(ws.skip(idx as int), rem as int) == 0);
            }
            return idx;
        }
        proof {
            lemma_total_nonneg(ws.skip(idx + 1));
            assert(total_weight(ws.skip(idx as int)) == w + total_weight(ws.skip(idx + 1)));
            // The remainder after this entry still fits in the tail, so the
            // tail is non-empty and the walk stays inside the table.
            assert(rem - w <= total_weight(ws.skip(idx + 1)));
            assert(ws.skip(idx + 1).len() > 0) by {
                if ws.skip(idx + 1).len() == 0 {
                    assert(total_weight(ws.skip(idx + 1)) == 0);
                }
            }
            assert(ws.skip(idx as int).len() > 1);
            assert(spec_select(ws.skip(idx as int), rem as int) == 1 + spec_select(
                ws.skip(idx + 1),
                rem - w,
            ));
        }
        rem = rem - w;
        idx = idx + 1;
    }
}

/// The stock template table: the goblin, as shipped with the server.
pub fn default_catalog() -> (r: MonsterCatalog)
    ensures
        r.wf(),
        r.templates@.len() == 1,
        r.templates@[0].id == 0,
        r.templates@[0].spawn_chance == 10,
{
    let goblin = Monster {
        stats: crate::stats::Stats {
            cur_health: 20,
            max_health: 20,
            cur_stamina: 20,
            max_stamina: 20,
            cur_magicka: 0,
            max_magicka: 0,
        },
        attrs: crate::stats::Attributes { might: 2, fines: 5, intel: 1 },
        sight_range: 5,
        id: 0,
        name: "Goblin",
        spawn_chance: 10,
    };
    let mut templates: Vec<Monster> = Vec::new();
    templates.push(goblin);
    let catalog = MonsterCatalog { templates };
    proof {
        let ws = catalog.weights();
        assert(ws =~= seq![10u32]);
        lemma_total_single(10u32);
        assert(total_weight(ws) == 10);
    }
    catalog
}

} // verus!
