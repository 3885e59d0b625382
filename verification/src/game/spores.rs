use vstd::prelude::*;
use itertools::Itertools;
use crate::game::city_coverage::city_shot::CityShot;
use crate::game::city_coverage::city_manager::{CityManager, CityManagerView, active_amounts, biospore_actions, biospore_state, lemma_biospore_settles, regions_have_shots};
use crate::signals::{Action, LedTarget, NamedColor, Signal};

verus! {

/// How long a decaying spore node takes to fade out.
pub const AOE_DECAY_MS: u64 = 45_000;
/// Nodes on a shot's hexagon.
pub const SPORE_NODES: u64 = 6;

/// One node of a shot's hexagon that a spore has reached.
#[derive(Debug, Clone, Copy, PartialEq, Eq, Structural)]
pub enum SporeNode {
    /// Covered for good.
    Locked,
    /// Fading out, with the milliseconds it has left.
    Decaying(u64),
}

/// The nodes of each shot a spore has reached, shot by shot.
pub type SporeNodes = Seq<(CityShot, Seq<SporeNode>)>;

pub open spec fn remaining(n: SporeNode) -> u64 {
    match n {
        SporeNode::Decaying(r) => r,
        SporeNode::Locked => 0,
    }
}

pub open spec fn decaying_at(l: Seq<SporeNode>, k: int) -> bool {
    0 <= k < l.len() && l[k] is Decaying
}

/// `k` is the decaying node with the least time left, the first of them on a tie.
pub open spec fn is_most_depleted(l: Seq<SporeNode>, k: int) -> bool {
    &&& decaying_at(l, k)
    &&& forall|j: int| #[trigger]
        decaying_at(l, j) ==> remaining(l[k]) < remaining(l[j]) || (remaining(l[k]) == remaining(l[j]) && k <= j)
}

pub open spec fn most_depleted(l: Seq<SporeNode>) -> Option<int> {
    if exists|k: int| is_most_depleted(l, k) {
        Some(choose|k: int| is_most_depleted(l, k))
    } else {
        None
    }
}

/// `i` is the position of the entry of `shot`.
pub open spec fn is_entry(nodes: SporeNodes, shot: CityShot, i: int) -> bool {
    &&& 0 <= i < nodes.len()
    &&& nodes[i].0 == shot
    &&& forall|j: int| 0 <= j < i ==> #[trigger] nodes[j].0 != shot
}

pub open spec fn has_entry(nodes: SporeNodes, shot: CityShot) -> bool {
    exists|i: int| is_entry(nodes, shot, i)
}

pub open spec fn entry_index(nodes: SporeNodes, shot: CityShot) -> int {
    choose|i: int| is_entry(nodes, shot, i)
}

pub open spec fn entry_nodes(nodes: SporeNodes, shot: CityShot) -> Seq<SporeNode> {
    nodes[entry_index(nodes, shot)].1
}

/// The nodes after `node` was pushed on `shot`: a shot not reached yet gets
/// an entry holding the node; a hexagon with a free node gets it next; a full
/// hexagon has its most depleted decaying node replaced, and one with no
/// decaying node stays as it is.
pub open spec fn pushed(nodes: SporeNodes, shot: CityShot, node: SporeNode) -> SporeNodes {
    if !has_entry(nodes, shot) {
        nodes.push((shot, seq![node]))
    } else if entry_nodes(nodes, shot).len() < SPORE_NODES {
        nodes.update(entry_index(nodes, shot), (shot, entry_nodes(nodes, shot).push(node)))
    } else {
        match most_depleted(entry_nodes(nodes, shot)) {
            Some(k) => nodes.update(entry_index(nodes, shot), (shot, entry_nodes(nodes, shot).update(k, node))),
            None => nodes,
        }
    }
}

/// Every hexagon holds at most its six nodes.
pub open spec fn nodes_fit(nodes: SporeNodes) -> bool {
    forall|i: int| 0 <= i < nodes.len() ==> (#[trigger] nodes[i]).1.len() <= SPORE_NODES
}

/// Pushing a node never overfills a hexagon.
pub proof fn lemma_pushed_fits(nodes: SporeNodes, shot: CityShot, node: SporeNode)
    requires
        nodes_fit(nodes),
    ensures
        nodes_fit(pushed(nodes, shot, node)),
{
    let p = pushed(nodes, shot, node);
    if has_entry(nodes, shot) {
        let i = entry_index(nodes, shot);
        assert(is_entry(nodes, shot, i));
        assert(nodes[i].1.len() <= SPORE_NODES);
        assert forall|j: int| 0 <= j < p.len() implies (#[trigger] p[j]).1.len() <= SPORE_NODES by {
            if j != i {
                assert(p[j] == nodes[j]);
            }
        }
    } else {
        assert forall|j: int| 0 <= j < p.len() implies (#[trigger] p[j]).1.len() <= SPORE_NODES by {
            if j < nodes.len() {
                assert(p[j] == nodes[j]);
            }
        }
    }
}

pub proof fn lemma_entry_unique(nodes: SporeNodes, shot: CityShot, i: int, j: int)
    requires
        is_entry(nodes, shot, i),
        is_entry(nodes, shot, j),
    ensures
        i == j,
{
    if i < j {
        assert(nodes[i].0 != shot);
    } else if j < i {
        assert(nodes[j].0 != shot);
    }
}

pub proof fn lemma_most_depleted_unique(l: Seq<SporeNode>, a: int, b: int)
    requires
        is_most_depleted(l, a),
        is_most_depleted(l, b),
    ensures
        a == b,
{
    assert(decaying_at(l, a));
    assert(decaying_at(l, b));
}

/// Sorts `(node index, time left)` pairs by time left with
/// `Itertools::sorted_by_key`, which collects them and sorts with the stable
/// `slice::sort_by_key`. Given pairs in increasing index order, stability
/// orders a tie by index, so the result holds the same pairs ordered by
/// time left, then index.
#[verifier::external_body]
fn sorted_by_remaining(items: Vec<(usize, u64)>) -> (r: Vec<(usize, u64)>)
    requires
        forall|i: int, j: int| 0 <= i < j < items@.len() ==> items@[i].0 < items@[j].0,
    ensures
        r@.len() == items@.len(),
        forall|x: (usize, u64)| r@.contains(x) <==> items@.contains(x),
        forall|i: int, j: int|
            0 <= i < j < r@.len() ==> r@[i].1 < r@[j].1 || (r@[i].1 == r@[j].1 && r@[i].0 < r@[j].0),
{
    items.into_iter().sorted_by_key(|item| item.1).collect()
}

/// The decaying nodes of `l` with their time left, in index order.
fn decaying_nodes(l: &Vec<SporeNode>) -> (r: Vec<(usize, u64)>)
    ensures
        forall|i: int| 0 <= i < r@.len() ==> decaying_at(l@, #[trigger] r@[i].0 as int) && r@[i].1 == remaining(l@[r@[i].0 as int]),
        forall|i: int, j: int| 0 <= i < j < r@.len() ==> r@[i].0 < r@[j].0,
        forall|k: int| #[trigger] decaying_at(l@, k) ==> exists|i: int| 0 <= i < r@.len() && r@[i].0 == k,
{
    let mut r: Vec<(usize, u64)> = Vec::new();
    let mut k: usize = 0;
    while k < l.len()
        invariant
            0 <= k <= l@.len(),
            forall|i: int| 0 <= i < r@.len() ==> decaying_at(l@, #[trigger] r@[i].0 as int) && r@[i].1 == remaining(l@[r@[i].0 as int]),
            forall|i: int| 0 <= i < r@.len() ==> #[trigger] r@[i].0 < k,
            forall|i: int, j: int| 0 <= i < j < r@.len() ==> r@[i].0 < r@[j].0,
            forall|m: int| 0 <= m < k && #[trigger] decaying_at(l@, m) ==> exists|i: int| 0 <= i < r@.len() && r@[i].0 == m,
        decreases l@.len() - k,
    {
        match l[k] {
            SporeNode::Decaying(rem) => {
                let ghost before = r@;
                r.push((k, rem));
                assert(r@[r@.len() - 1].0 == k);
                assert forall|m: int| 0 <= m < k + 1 && #[trigger] decaying_at(l@, m) implies exists|i: int|
                    0 <= i < r@.len() && r@[i].0 == m by {
                    if m < k {
                        let i = choose|i: int| 0 <= i < before.len() && before[i].0 == m;
                        assert(r@[i] == before[i]);
                    } else {
                        assert(r@[r@.len() - 1].0 == m);
                    }
                }
            },
            SporeNode::Locked => {
                assert forall|m: int| 0 <= m < k + 1 && #[trigger] decaying_at(l@, m) implies exists|i: int|
                    0 <= i < r@.len() && r@[i].0 == m by {
                    if m == k {
                        assert(!decaying_at(l@, m));
                    }
                }
            },
        }
        k = k + 1;
    }
    r
}

/// The most depleted decaying node of `l`, if any node decays.
pub fn most_depleted_index(l: &Vec<SporeNode>) -> (r: Option<usize>)
    ensures
        match most_depleted(l@) {
            Some(k) => r == Some(k as usize),
            None => r.is_none(),
        },
{
    let items = decaying_nodes(l);
    let ghost its = items@;
    let sorted = sorted_by_remaining(items);
    if sorted.len() > 0 {
        let first = sorted[0];
        proof {
            assert(sorted@.contains(first));
            assert(its.contains(first));
            let i0 = choose|i: int| 0 <= i < its.len() && its[i] == first;
            assert(decaying_at(l@, its[i0].0 as int));
            assert forall|j: int| #[trigger] decaying_at(l@, j) implies remaining(l@[first.0 as int]) < remaining(l@[j]) || (
            remaining(l@[first.0 as int]) == remaining(l@[j]) && first.0 <= j) by {
                let i = choose|i: int| 0 <= i < its.len() && its[i].0 == j;
                assert(its.contains(its[i]));
                assert(sorted@.contains(its[i]));
                let m = choose|m: int| 0 <= m < sorted@.len() && sorted@[m] == its[i];
                if m > 0 {
                    assert(sorted@[0].1 < sorted@[m].1 || (sorted@[0].1 == sorted@[m].1 && sorted@[0].0 < sorted@[m].0));
                }
                assert(its[i0].1 == remaining(l@[its[i0].0 as int]));
                assert(its[i].1 == remaining(l@[its[i].0 as int]));
            }
            assert(is_most_depleted(l@, first.0 as int));
            lemma_most_depleted_unique(l@, first.0 as int, choose|k: int| is_most_depleted(l@, k));
        }
        Some(first.0)
    } else {
        proof {
            if exists|k: int| is_most_depleted(l@, k) {
                let k = choose|k: int| is_most_depleted(l@, k);
                assert(decaying_at(l@, k));
                let i = choose|i: int| 0 <= i < its.len() && its[i].0 == k;
                assert(its.contains(its[i]));
                assert(sorted@.contains(its[i]));
            }
        }
        None
    }
}

} // verus!

verus! {

pub open spec fn shots_of(current: Seq<(CityShot, u64)>) -> Seq<CityShot> {
    current.map_values(|e: (CityShot, u64)| e.0)
}

/// The shots of the region a spore spreads over, in playfield order.
pub open spec fn region_of(current: Seq<(CityShot, u64)>) -> Seq<CityShot> {
    CityShot::ordered_seq().filter(|s: CityShot| shots_of(current).contains(s))
}

pub open spec fn first_at(region: Seq<CityShot>, target: CityShot, i: int) -> bool {
    &&& 0 <= i < region.len()
    &&& region[i] == target
    &&& forall|j: int| 0 <= j < i ==> #[trigger] region[j] != target
}

/// Where the target lies in the region; the first shot when it lies outside.
pub open spec fn hit_index(region: Seq<CityShot>, target: CityShot) -> int {
    if exists|i: int| first_at(region, target, i) {
        choose|i: int| first_at(region, target, i)
    } else {
        0
    }
}

/// The neighbour before `hit`, wrapping round the region.
pub open spec fn prev_index(hit: int, count: int) -> int {
    if hit == 0 {
        count - 1
    } else {
        hit - 1
    }
}

/// The neighbour after `hit`, wrapping round the region.
pub open spec fn next_index(hit: int, count: int) -> int {
    if hit + 1 == count {
        0
    } else {
        hit + 1
    }
}

/// What a pink spore spreads: two units on the target, one on each distinct
/// neighbour.
pub open spec fn spread_amounts(region: Seq<CityShot>, target: CityShot) -> Seq<(CityShot, u64)> {
    let hit = hit_index(region, target);
    let prev = prev_index(hit, region.len() as int);
    let next = next_index(hit, region.len() as int);
    seq![(target, 2u64)] + (if prev != hit {
        seq![(region[prev], 1u64)]
    } else {
        seq![]
    }) + (if next != hit && next != prev {
        seq![(region[next], 1u64)]
    } else {
        seq![]
    })
}

/// The nodes after a pink spore hit: the target gets a locked and a decaying
/// node, and each neighbour reached a decaying node, so the extra hits on
/// the neighbours fade out again.
pub open spec fn spread_nodes(nodes: SporeNodes, region: Seq<CityShot>, target: CityShot) -> SporeNodes {
    let hit = hit_index(region, target);
    let prev = prev_index(hit, region.len() as int);
    let next = next_index(hit, region.len() as int);
    let decay = SporeNode::Decaying(AOE_DECAY_MS);
    let hit_nodes = pushed(pushed(nodes, target, SporeNode::Locked), target, decay);
    let prev_nodes = if prev != hit {
        pushed(hit_nodes, region[prev], decay)
    } else {
        hit_nodes
    };
    if next != hit && next != prev {
        pushed(prev_nodes, region[next], decay)
    } else {
        prev_nodes
    }
}

/// The pink spore: a hit also reaches the neighbouring shots, and those
/// extra hits decay.
pub struct PinkSpore {
    nodes: Vec<(CityShot, Vec<SporeNode>)>,
}

impl View for PinkSpore {
    type V = SporeNodes;

    closed spec fn view(&self) -> SporeNodes {
        self.nodes@.map_values(|e: (CityShot, Vec<SporeNode>)| (e.0, e.1@))
    }
}

fn copy_nodes(l: &Vec<SporeNode>) -> (r: Vec<SporeNode>)
    ensures
        r@ == l@,
{
    let mut r: Vec<SporeNode> = Vec::new();
    let mut i: usize = 0;
    while i < l.len()
        invariant
            0 <= i <= l@.len(),
            r@ == l@.subrange(0, i as int),
        decreases l@.len() - i,
    {
        r.push(l[i]);
        i = i + 1;
        assert(r@ =~= l@.subrange(0, i as int));
    }
    assert(r@ =~= l@);
    r
}

impl PinkSpore {
    /// No shot reached yet.
    pub fn new() -> (s: Self)
        ensures
            s@ == Seq::<(CityShot, Seq<SporeNode>)>::empty(),
    {
        let s = PinkSpore { nodes: Vec::new() };
        assert(s@ =~= Seq::<(CityShot, Seq<SporeNode>)>::empty());
        s
    }

    fn find_entry(&self, shot: CityShot) -> (r: Option<usize>)
        ensures
            match r {
                Some(i) => is_entry(self@, shot, i as int),
                None => !has_entry(self@, shot),
            },
    {
        let mut i: usize = 0;
        while i < self.nodes.len()
            invariant
                0 <= i <= self.nodes@.len(),
                self@.len() == self.nodes@.len(),
                forall|j: int| 0 <= j < i ==> #[trigger] self@[j].0 != shot,
            decreases self.nodes@.len() - i,
        {
            if self.nodes[i].0 == shot {
                assert(self@[i as int].0 == shot);
                return Some(i);
            }
            assert(self@[i as int].0 != shot);
            i = i + 1;
        }
        proof {
            if has_entry(self@, shot) {
                let k = choose|k: int| is_entry(self@, shot, k);
                assert(self@[k].0 != shot);
            }
        }
        None
    }

    fn set_node(&mut self, i: usize, k: usize, node: SporeNode)
        requires
            i < old(self)@.len(),
            k < old(self)@[i as int].1.len(),
        ensures
            final(self)@ == old(self)@.update(i as int, (old(self)@[i as int].0, old(self)@[i as int].1.update(k as int, node))),
    {
        let shot = self.nodes[i].0;
        let mut inner = copy_nodes(&self.nodes[i].1);
        inner.set(k, node);
        self.nodes.set(i, (shot, inner));
        assert(self@ =~= old(self)@.update(i as int, (old(self)@[i as int].0, old(self)@[i as int].1.update(k as int, node))));
    }

    fn append_node(&mut self, i: usize, node: SporeNode)
        requires
            i < old(self)@.len(),
        ensures
            final(self)@ == old(self)@.update(i as int, (old(self)@[i as int].0, old(self)@[i as int].1.push(node))),
    {
        let shot = self.nodes[i].0;
        let mut inner = copy_nodes(&self.nodes[i].1);
        inner.push(node);
        self.nodes.set(i, (shot, inner));
        assert(self@ =~= old(self)@.update(i as int, (old(self)@[i as int].0, old(self)@[i as int].1.push(node))));
    }

    /// Pushes `node` on `shot`'s hexagon.
    fn push_next(&mut self, shot: CityShot, node: SporeNode)
        ensures
            final(self)@ == pushed(old(self)@, shot, node),
    {
        match self.find_entry(shot) {
            None => {
                let mut inner: Vec<SporeNode> = Vec::new();
                inner.push(node);
                self.nodes.push((shot, inner));
                assert(self@ =~= old(self)@.push((shot, seq![node])));
            },
            Some(i) => {
                proof {
                    lemma_entry_unique(self@, shot, i as int, entry_index(self@, shot));
                }
                assert(entry_nodes(self@, shot) == self.nodes@[i as int].1@);
                let len = self.nodes[i].1.len();
                if len < 6 {
                    self.append_node(i, node);
                } else {
                    match most_depleted_index(&self.nodes[i].1) {
                        Some(k) => {
                            self.set_node(i, k, node);
                        },
                        None => {},
                    }
                }
            },
        }
    }

    fn push_next_locked(&mut self, shot: CityShot)
        ensures
            final(self)@ == pushed(old(self)@, shot, SporeNode::Locked),
    {
        self.push_next(shot, SporeNode::Locked);
    }

    fn push_next_decay(&mut self, shot: CityShot)
        ensures
            final(self)@ == pushed(old(self)@, shot, SporeNode::Decaying(AOE_DECAY_MS)),
    {
        self.push_next(shot, SporeNode::Decaying(AOE_DECAY_MS));
    }
}

} // verus!

verus! {

fn keys_of(current: &Vec<(CityShot, u64)>) -> (r: Vec<CityShot>)
    ensures
        r@ == shots_of(current@),
{
    let mut r: Vec<CityShot> = Vec::new();
    let mut i: usize = 0;
    while i < current.len()
        invariant
            0 <= i <= current@.len(),
            r@ == shots_of(current@.subrange(0, i as int)),
        decreases current@.len() - i,
    {
        r.push(current[i].0);
        i = i + 1;
        assert(r@ =~= shots_of(current@.subrange(0, i as int)));
    }
    assert(current@.subrange(0, current@.len() as int) =~= current@);
    r
}

/// A region holding some shot has a shot in playfield order.
proof fn lemma_region_nonempty(current: Seq<(CityShot, u64)>)
    requires
        current.len() > 0,
    ensures
        region_of(current).len() > 0,
{
    let s = current[0].0;
    let ordered = CityShot::ordered_seq();
    let pred = |x: CityShot| shots_of(current).contains(x);
    assert(shots_of(current)[0] == s);
    assert(pred(s));
    assert(ordered[s.order_index()] == s);
    ordered.lemma_filter_contains(pred, s.order_index());
}

impl PinkSpore {
    /// A hit on `target`: two units on the target and one on each distinct
    /// neighbour of it in the region, wrapping round; the target's hexagon
    /// gets a locked and a decaying node, each neighbour's hexagon a decaying
    /// node. A target outside the region counts as hitting its first shot.
    pub fn apply(&mut self, target: CityShot, current: &Vec<(CityShot, u64)>) -> (r: Vec<(CityShot, u64)>)
        requires
            current@.len() > 0,
        ensures
            r@ == spread_amounts(region_of(current@), target),
            final(self)@ == spread_nodes(old(self)@, region_of(current@), target),
    {
        let keys = keys_of(current);
        let region_shots = CityShot::ordered_only(keys);
        proof {
            lemma_region_nonempty(current@);
            assert(region_shots@ == region_of(current@));
        }
        let count = region_shots.len();
        let mut hit: usize = 0;
        let mut found = false;
        let mut i: usize = 0;
        while i < count
            invariant
                count == region_shots@.len(),
                0 <= i <= count,
                !found ==> hit == 0,
                found ==> hit == i && i < count && region_shots@[i as int] == target,
                forall|j: int| 0 <= j < i ==> #[trigger] region_shots@[j] != target,
            ensures
                found || i == count,
            decreases count - i,
        {
            if region_shots[i] == target {
                hit = i;
                found = true;
                break;
            }
            i = i + 1;
        }
        proof {
            if found {
                assert(first_at(region_shots@, target, hit as int));
                let c = choose|c: int| first_at(region_shots@, target, c);
                if c < hit {
                    assert(region_shots@[c] != target);
                } else if c > hit {
                    assert(region_shots@[hit as int] != target);
                }
            } else {
                if exists|c: int| first_at(region_shots@, target, c) {
                    let c = choose|c: int| first_at(region_shots@, target, c);
                    assert(region_shots@[c] == target);
                }
            }
            assert(hit as int == hit_index(region_shots@, target));
        }
        let prev: usize = if hit == 0 { count - 1 } else { hit - 1 };
        let next: usize = if hit + 1 == count { 0 } else { hit + 1 };
        let mut results: Vec<(CityShot, u64)> = Vec::new();
        results.push((target, 2u64));
        self.push_next_locked(target);
        self.push_next_decay(target);
        if prev != hit {
            let shot = region_shots[prev];
            results.push((shot, 1u64));
            self.push_next_decay(shot);
        }
        if next != hit && next != prev {
            let shot = region_shots[next];
            results.push((shot, 1u64));
            self.push_next_decay(shot);
        }
        assert(results@ =~= spread_amounts(region_of(current@), target));
        results
    }
}

} // verus!

verus! {

/// The shot an orbit hit is for.
pub open spec fn orbit_shot(event: Signal) -> Option<CityShot> {
    match event {
        Signal::LeftOrbitHit => Some(CityShot::LeftOrbit),
        Signal::CenterOrbitHit => Some(CityShot::CenterOrbit),
        Signal::RightOrbitHit => Some(CityShot::RightOrbit),
        _ => None,
    }
}

impl PinkSpore {
    /// A hit on `shot`: with a region active, the spore spreads over it and
    /// each amount goes to the city; then the shot is announced.
    pub fn handle_shot(&mut self, shot: CityShot, city: &mut CityManager, acts: &mut Vec<Action>)
        requires
            regions_have_shots(old(city)@),
        ensures
            match active_amounts(old(city)@) {
                Some(a) => {
                    &&& final(self)@ == spread_nodes(old(self)@, region_of(a), shot)
                    &&& final(city)@ == biospore_state(old(city)@)
                    &&& final(acts)@ == old(acts)@ + biospore_actions(old(city)@) + seq![Action::EmitSporeShot(shot)]
                },
                None => {
                    &&& final(self)@ == old(self)@
                    &&& final(city)@ == old(city)@
                    &&& final(acts)@ == old(acts)@.push(Action::EmitSporeShot(shot))
                },
            },
    {
        let ghost v0 = city@;
        let ghost a0 = acts@;
        if let Some(amounts) = city.shot_amounts() {
            let results = self.apply(shot, &amounts);
            proof { lemma_biospore_settles(v0); }
            let mut i: usize = 0;
            while i < results.len()
                invariant
                    0 <= i <= results@.len(),
                    results@.len() > 0,
                    i == 0 ==> city@ == v0 && acts@ == a0,
                    i > 0 ==> city@ == biospore_state(v0) && acts@ == a0 + biospore_actions(v0),
                    biospore_state(biospore_state(v0)) == biospore_state(v0),
                    biospore_actions(biospore_state(v0)) == Seq::<Action>::empty(),
                decreases results@.len() - i,
            {
                let ghost before = acts@;
                city.apply_biospore(results[i].0, results[i].1, acts);
                if i > 0 {
                    assert(acts@ =~= before);
                }
                i = i + 1;
            }
        }
        acts.push(Action::EmitSporeShot(shot));
    }

    /// An orbit hit is a hit on that orbit's shot.
    pub fn handle_event(&mut self, event: &Signal, city: &mut CityManager, acts: &mut Vec<Action>)
        requires
            orbit_shot(*event) is Some ==> regions_have_shots(old(city)@),
        ensures
            match orbit_shot(*event) {
                Some(shot) => match active_amounts(old(city)@) {
                    Some(a) => {
                        &&& final(self)@ == spread_nodes(old(self)@, region_of(a), shot)
                        &&& final(city)@ == biospore_state(old(city)@)
                        &&& final(acts)@ == old(acts)@ + biospore_actions(old(city)@) + seq![Action::EmitSporeShot(shot)]
                    },
                    None => {
                        &&& final(self)@ == old(self)@
                        &&& final(city)@ == old(city)@
                        &&& final(acts)@ == old(acts)@.push(Action::EmitSporeShot(shot))
                    },
                },
                None => final(self)@ == old(self)@ && final(city)@ == old(city)@ && final(acts)@ == old(acts)@,
            },
    {
        match event {
            Signal::LeftOrbitHit => self.handle_shot(CityShot::LeftOrbit, city, acts),
            Signal::CenterOrbitHit => self.handle_shot(CityShot::CenterOrbit, city, acts),
            Signal::RightOrbitHit => self.handle_shot(CityShot::RightOrbit, city, acts),
            _ => {},
        }
    }
}

} // verus!

verus! {

/// A decaying node after `delta` milliseconds; a node already faded stays as it is.
pub open spec fn decayed(n: SporeNode, delta: u64) -> SporeNode {
    match n {
        SporeNode::Decaying(r) => if r > 0 {
            SporeNode::Decaying(if r > delta { (r - delta) as u64 } else { 0 })
        } else {
            n
        },
        SporeNode::Locked => n,
    }
}

/// How a node shows during a tick: locked nodes solid magenta, a node that
/// fades out during the tick released, a fading node in its faded color.
pub open spec fn node_tick_actions(shot: CityShot, idx: int, n: SporeNode, delta: u64) -> Seq<Action> {
    match n {
        SporeNode::Locked => seq![Action::DeclareLeds(LedTarget::SporeNode(shot, idx as usize), NamedColor::Magenta)],
        SporeNode::Decaying(r) => if r == 0 {
            seq![]
        } else if r <= delta {
            seq![Action::UndeclareLeds(LedTarget::SporeNode(shot, idx as usize))]
        } else {
            seq![Action::DeclareFadingSporeNode(shot, idx as usize, (r - delta) as u64)]
        },
    }
}

pub open spec fn entry_tick_actions(shot: CityShot, l: Seq<SporeNode>, delta: u64) -> Seq<Action>
    decreases l.len(),
{
    if l.len() == 0 {
        seq![]
    } else {
        entry_tick_actions(shot, l.drop_last(), delta) + node_tick_actions(shot, l.len() - 1, l.last(), delta)
    }
}

/// Some node of `l` fades out during a tick of `delta` milliseconds.
pub open spec fn fades_out(l: Seq<SporeNode>, delta: u64) -> bool {
    exists|k: int| 0 <= k < l.len() && #[trigger] l[k] is Decaying && 0 < remaining(l[k]) <= delta
}

/// A node that counts as coverage: a locked node, or a decaying node that
/// has not faded out yet.
pub open spec fn is_covered(n: SporeNode) -> bool {
    match n {
        SporeNode::Locked => true,
        SporeNode::Decaying(r) => r > 0,
    }
}

/// How many nodes count as coverage.
pub open spec fn covered_count(l: Seq<SporeNode>) -> nat
    decreases l.len(),
{
    if l.len() == 0 {
        0
    } else {
        covered_count(l.drop_last()) + if is_covered(l.last()) { 1nat } else { 0nat }
    }
}

pub open spec fn decayed_nodes(l: Seq<SporeNode>, delta: u64) -> Seq<SporeNode> {
    l.map_values(|n: SporeNode| decayed(n, delta))
}

pub open spec fn decayed_entry(e: (CityShot, Seq<SporeNode>), delta: u64) -> (CityShot, Seq<SporeNode>) {
    (e.0, decayed_nodes(e.1, delta))
}

/// A tick over the spore's entries in turn: each entry's nodes show, and an
/// entry where a node faded out spreads spore on the city, which pays out a
/// region found covered. What the host performs and the city after it.
pub open spec fn tick_fold(entries: SporeNodes, delta: u64, v: CityManagerView) -> (Seq<Action>, CityManagerView)
    decreases entries.len(),
{
    if entries.len() == 0 {
        (seq![], v)
    } else {
        let (a, v1) = tick_fold(entries.drop_last(), delta, v);
        let e = entries.last();
        let shown = a + entry_tick_actions(e.0, e.1, delta);
        if fades_out(e.1, delta) {
            (shown + biospore_actions(v1), biospore_state(v1))
        } else {
            (shown, v1)
        }
    }
}

/// One entry's tick: the decayed nodes, whether a node faded out, and the
/// coverage count after decay.
fn tick_entry(shot: CityShot, l: &Vec<SporeNode>, delta: u64, acts: &mut Vec<Action>) -> (r: (Vec<SporeNode>, bool, u64))
    ensures
        r.0@ == decayed_nodes(l@, delta),
        r.1 == fades_out(l@, delta),
        r.2 == covered_count(r.0@),
        final(acts)@ == old(acts)@ + entry_tick_actions(shot, l@, delta),
{
    let mut out: Vec<SporeNode> = Vec::new();
    let mut reapply = false;
    let mut count: u64 = 0;
    let mut j: usize = 0;
    while j < l.len()
        invariant
            0 <= j <= l@.len(),
            out@ == decayed_nodes(l@.take(j as int), delta),
            reapply == fades_out(l@.take(j as int), delta),
            count == covered_count(out@),
            count <= j,
            acts@ == old(acts)@ + entry_tick_actions(shot, l@.take(j as int), delta),
        decreases l@.len() - j,
    {
        let ghost prefix = l@.take(j as int);
        let ghost next_prefix = l@.take(j + 1);
        let node = l[j];
        let mut now = node;
        match node {
            SporeNode::Locked => {
                acts.push(Action::DeclareLeds(LedTarget::SporeNode(shot, j), NamedColor::Magenta));
            },
            SporeNode::Decaying(rem) => {
                if rem > 0 {
                    let left: u64 = if rem > delta { rem - delta } else { 0 };
                    now = SporeNode::Decaying(left);
                    if left == 0 {
                        acts.push(Action::UndeclareLeds(LedTarget::SporeNode(shot, j)));
                        reapply = true;
                    } else {
                        acts.push(Action::DeclareFadingSporeNode(shot, j, left));
                    }
                }
            },
        }
        out.push(now);
        let covered = match now {
            SporeNode::Locked => true,
            SporeNode::Decaying(r) => r > 0,
        };
        if covered {
            count = count + 1;
        }
        proof {
            assert(next_prefix.drop_last() =~= prefix);
            assert(next_prefix.last() == node);
            assert(out@.drop_last() =~= decayed_nodes(prefix, delta));
            assert(out@ =~= decayed_nodes(next_prefix, delta));
            if fades_out(next_prefix, delta) && !fades_out(prefix, delta) {
                let k = choose|k: int| 0 <= k < next_prefix.len() && #[trigger] next_prefix[k] is Decaying && 0 < remaining(next_prefix[k]) <= delta;
                if k < j {
                    assert(prefix[k] == next_prefix[k]);
                }
            }
            if fades_out(prefix, delta) {
                let k = choose|k: int| 0 <= k < prefix.len() && #[trigger] prefix[k] is Decaying && 0 < remaining(prefix[k]) <= delta;
                assert(next_prefix[k] == prefix[k]);
            }
            if reapply && !fades_out(prefix, delta) {
                assert(next_prefix[j as int] is Decaying);
            }
        }
        j = j + 1;
    }
    assert(l@.take(l@.len() as int) =~= l@);
    (out, reapply, count)
}

impl PinkSpore {
    /// Decay over `delta_ms` milliseconds: every node shows, decaying nodes
    /// lose time, and a shot where a node faded out hands the city its
    /// coverage: its locked nodes and the decaying nodes still running, one
    /// unit each. The region keeps its own coverage (see
    /// `CityRegion::apply_biospore`), so only a region already covered pays out.
    pub fn on_tick(&mut self, delta_ms: u64, city: &mut CityManager, acts: &mut Vec<Action>)
        ensures
            final(self)@ == old(self)@.map_values(|e: (CityShot, Seq<SporeNode>)| decayed_entry(e, delta_ms)),
            final(acts)@ == old(acts)@ + tick_fold(old(self)@, delta_ms, old(city)@).0,
            final(city)@ == tick_fold(old(self)@, delta_ms, old(city)@).1,
    {
        let ghost start = self@;
        let ghost a0 = acts@;
        let ghost v0 = city@;
        let mut i: usize = 0;
        while i < self.nodes.len()
            invariant
                0 <= i <= self.nodes@.len(),
                self@.len() == start.len(),
                forall|k: int| 0 <= k < i ==> #[trigger] self@[k] == decayed_entry(start[k], delta_ms),
                forall|k: int| i <= k < start.len() ==> #[trigger] self@[k] == start[k],
                acts@ == a0 + tick_fold(start.take(i as int), delta_ms, v0).0,
                city@ == tick_fold(start.take(i as int), delta_ms, v0).1,
            decreases self.nodes@.len() - i,
        {
            let shot = self.nodes[i].0;
            assert(self@[i as int] == start[i as int]);
            let (decayed_list, reapply, count) = tick_entry(shot, &self.nodes[i].1, delta_ms, acts);
            let ghost before = self@;
            self.nodes.set(i, (shot, decayed_list));
            assert forall|k: int| 0 <= k < self@.len() && k != i implies #[trigger] self@[k] == before[k] by {}
            if reapply {
                city.apply_biospore(shot, count, acts);
            }
            proof {
                let t = start.take(i + 1);
                assert(t.drop_last() =~= start.take(i as int));
                assert(t.last() == start[i as int]);
            }
            i = i + 1;
        }
        assert(start.take(start.len() as int) =~= start);
        assert(self@ =~= start.map_values(|e: (CityShot, Seq<SporeNode>)| decayed_entry(e, delta_ms)));
    }
}

} // verus!

verus! {

/// A pink spore hit spreads two units on the target and one unit on each
/// neighbour it reaches: at most two neighbours, each another shot of the
/// region, and both neighbours once the region has three shots or more.
pub proof fn lemma_spread_amounts(region: Seq<CityShot>, target: CityShot)
    requires
        region.len() > 0,
        region.no_duplicates(),
    ensures
        spread_amounts(region, target)[0] == (target, 2u64),
        1 <= spread_amounts(region, target).len() <= 3,
        region.len() >= 3 ==> spread_amounts(region, target).len() == 3,
        forall|i: int|
            1 <= i < spread_amounts(region, target).len() ==> {
                &&& (#[trigger] spread_amounts(region, target)[i]).1 == 1
                &&& region.contains(spread_amounts(region, target)[i].0)
                &&& spread_amounts(region, target)[i].0 != target
            },
{
    let hit = hit_index(region, target);
    let n = region.len() as int;
    if region.contains(target) {
        let i = choose|i: int| 0 <= i < region.len() && region[i] == target;
        assert(first_at(region, target, i));
        let c = choose|c: int| first_at(region, target, c);
        assert(region[c] == target);
    } else {
        if exists|c: int| first_at(region, target, c) {
            let c = choose|c: int| first_at(region, target, c);
            assert(region[c] == target);
        }
    }
    assert(0 <= hit < n);
    let prev = prev_index(hit, n);
    let next = next_index(hit, n);
    assert(0 <= prev < n && 0 <= next < n);
    assert(region.contains(region[prev]));
    assert(region.contains(region[next]));
    if region.contains(target) {
        assert(region[hit] == target);
    }
}

/// A pink spore hit keeps every hexagon within its six nodes.
pub proof fn lemma_spread_fits(nodes: SporeNodes, region: Seq<CityShot>, target: CityShot)
    requires
        nodes_fit(nodes),
    ensures
        nodes_fit(spread_nodes(nodes, region, target)),
{
    let hit = hit_index(region, target);
    let prev = prev_index(hit, region.len() as int);
    let next = next_index(hit, region.len() as int);
    let decay = SporeNode::Decaying(AOE_DECAY_MS);
    lemma_pushed_fits(nodes, target, SporeNode::Locked);
    let locked = pushed(nodes, target, SporeNode::Locked);
    lemma_pushed_fits(locked, target, decay);
    let hit_nodes = pushed(locked, target, decay);
    lemma_pushed_fits(hit_nodes, region[prev], decay);
    let prev_nodes = if prev != hit { pushed(hit_nodes, region[prev], decay) } else { hit_nodes };
    lemma_pushed_fits(prev_nodes, region[next], decay);
}

/// Decay keeps every hexagon as long as it was.
pub proof fn lemma_tick_fits(nodes: SporeNodes, delta: u64)
    requires
        nodes_fit(nodes),
    ensures
        nodes_fit(nodes.map_values(|e: (CityShot, Seq<SporeNode>)| decayed_entry(e, delta))),
{
    let t = nodes.map_values(|e: (CityShot, Seq<SporeNode>)| decayed_entry(e, delta));
    assert forall|i: int| 0 <= i < t.len() implies (#[trigger] t[i]).1.len() <= SPORE_NODES by {
        assert(t[i] == decayed_entry(nodes[i], delta));
        assert(nodes[i].1.len() <= SPORE_NODES);
    }
}

/// Where a pushed node goes. A shot not reached yet gets a new entry at the
/// end holding just the node; a hexagon with fewer than six nodes gets the
/// node after its last one; a full hexagon has the node put in place of its
/// decaying node with the least time left (the first of them on a tie), so
/// the hexagon then holds the node; only a full hexagon with no decaying
/// node stays as it is. Every other shot's entry is left alone.
pub proof fn lemma_push_places_node(nodes: SporeNodes, shot: CityShot, node: SporeNode, i: int, k: int)
    ensures
        (forall|j: int| 0 <= j < nodes.len() ==> #[trigger] nodes[j].0 != shot)
            ==> pushed(nodes, shot, node) == nodes.push((shot, seq![node])),
        ({
            &&& 0 <= i < nodes.len()
            &&& nodes[i].0 == shot
            &&& forall|j: int| 0 <= j < i ==> #[trigger] nodes[j].0 != shot
        }) ==> {
            let l = nodes[i].1;
            &&& l.len() < 6 ==> pushed(nodes, shot, node) == nodes.update(i, (shot, l.push(node)))
            &&& (l.len() >= 6 && 0 <= k < l.len() && l[k] is Decaying
                && forall|j: int| 0 <= j < l.len() && (#[trigger] l[j]) is Decaying ==> (l[k]->0 < l[j]->0
                    || (l[k]->0 == l[j]->0 && k <= j)))
                ==> pushed(nodes, shot, node) == nodes.update(i, (shot, l.update(k, node)))
                    && pushed(nodes, shot, node)[i].1.contains(node)
                    && pushed(nodes, shot, node)[i].1.len() == l.len()
            &&& (l.len() >= 6 && forall|j: int| 0 <= j < l.len() ==> (#[trigger] l[j]) is Locked)
                ==> pushed(nodes, shot, node) == nodes
        },
{
    if forall|j: int| 0 <= j < nodes.len() ==> #[trigger] nodes[j].0 != shot {
        if has_entry(nodes, shot) {
            let e = choose|e: int| is_entry(nodes, shot, e);
            assert(nodes[e].0 == shot);
        }
    }
    if 0 <= i < nodes.len() && nodes[i].0 == shot && forall|j: int| 0 <= j < i ==> #[trigger] nodes[j].0 != shot {
        assert(is_entry(nodes, shot, i));
        lemma_entry_unique(nodes, shot, i, entry_index(nodes, shot));
        let l = nodes[i].1;
        assert(entry_nodes(nodes, shot) == l);
        if l.len() >= 6 && 0 <= k < l.len() && l[k] is Decaying
            && forall|j: int| 0 <= j < l.len() && (#[trigger] l[j]) is Decaying ==> (l[k]->0 < l[j]->0
                || (l[k]->0 == l[j]->0 && k <= j)) {
            assert forall|j: int| #[trigger] decaying_at(l, j) implies remaining(l[k]) < remaining(l[j])
                || (remaining(l[k]) == remaining(l[j]) && k <= j) by {
                assert(l[j] is Decaying);
            }
            assert(is_most_depleted(l, k));
            let c = choose|c: int| is_most_depleted(l, c);
            lemma_most_depleted_unique(l, k, c);
            assert(l.update(k, node)[k] == node);
        }
        if l.len() >= 6 && forall|j: int| 0 <= j < l.len() ==> (#[trigger] l[j]) is Locked {
            if exists|c: int| is_most_depleted(l, c) {
                let c = choose|c: int| is_most_depleted(l, c);
                assert(l[c] is Locked);
            }
        }
    }
}

} // verus!
