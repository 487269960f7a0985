use vstd::prelude::*;
use crate::physics2d::rigidbody::{ColliderIndices, is_other_index, lemma_detach_keeps_references, shifted_index};

verus! {

/// Query filter for spatial queries: bodies to skip and whether sensors count.
#[derive(Debug, Clone)]
pub struct QueryFilter {
    /// Indices of the bodies to skip
    pub skip_bodies: Vec<usize>,
    /// Whether sensors are included
    pub include_sensors: bool,
}

impl Default for QueryFilter {
    fn default() -> (r: Self)
        ensures
            r.skip_bodies@ == Seq::<usize>::empty(),
            !r.include_sensors,
    {
        QueryFilter { skip_bodies: Vec::new(), include_sensors: false }
    }
}

impl QueryFilter {
    /// A filter that skips nothing and includes sensors
    pub fn new() -> (r: Self)
        ensures
            r.skip_bodies@ == Seq::<usize>::empty(),
            r.include_sensors,
    {
        QueryFilter { skip_bodies: Vec::new(), include_sensors: true }
    }

    /// Replace the list of skipped bodies
    pub fn with_skip_bodies(self, bodies: Vec<usize>) -> (r: Self)
        ensures
            r.skip_bodies@ == bodies@,
            r.include_sensors == self.include_sensors,
    {
        let mut s = self;
        s.skip_bodies = bodies;
        s
    }

    /// Set whether sensors are included
    pub fn with_include_sensors(self, included: bool) -> (r: Self)
        ensures
            r.skip_bodies@ == self.skip_bodies@,
            r.include_sensors == included,
    {
        let mut s = self;
        s.include_sensors = included;
        s
    }
}

/// The index bookkeeping of a 2D physics world: for each body (by index)
/// the indices of its colliders, the number of colliders, and the
/// broad-phase pairs. Bodies, colliders and contact data themselves are kept
/// by the caller in lists that these indices point into.
pub struct WorldIndex {
    bodies: Vec<ColliderIndices>,
    collider_count: usize,
    collision_pairs: Vec<(usize, usize)>,
}

/// A body's collider indices once the collider at `k` is gone: `k` is
/// dropped and the indices above it move down by one.
pub open spec fn detached(cs: Seq<usize>, k: usize) -> Seq<usize> {
    cs.filter(is_other_index(k)).map_values(|i: usize| shifted_index(i, k))
}

/// Keeps the pairs whose two indices are below `n`.
pub open spec fn pair_below(n: usize) -> spec_fn((usize, usize)) -> bool {
    |p: (usize, usize)| p.0 < n && p.1 < n
}

/// The positions below `count` that `cs` names, from `count - 1` down to
/// `count - k`, highest first.
pub open spec fn named_desc(cs: Seq<usize>, count: usize, k: nat) -> Seq<usize>
    decreases k,
{
    if k == 0 || k > count {
        Seq::empty()
    } else {
        let prev = named_desc(cs, count, (k - 1) as nat);
        let p = (count - k) as usize;
        if cs.contains(p) {
            prev.push(p)
        } else {
            prev
        }
    }
}

/// Whether `cs` names `p`
fn slice_names(cs: &[usize], p: usize) -> (r: bool)
    ensures
        r == cs@.contains(p),
{
    let n = cs.len();
    let mut i: usize = 0;
    while i < n
        invariant
            n == cs@.len(),
            0 <= i <= n,
            forall|j: int| 0 <= j < i ==> cs@[j] != p,
        decreases n - i,
    {
        if cs[i] == p {
            proof {
                assert(cs@[i as int] == p);
            }
            return true;
        }
        i += 1;
    }
    false
}

impl WorldIndex {
    /// The collider indices of each body
    pub closed spec fn body_colliders(&self) -> Seq<Seq<usize>> {
        self.bodies@.map_values(|c: ColliderIndices| c@)
    }

    /// The number of colliders
    pub closed spec fn spec_collider_count(&self) -> usize {
        self.collider_count
    }

    /// The broad-phase pairs
    pub closed spec fn pairs(&self) -> Seq<(usize, usize)> {
        self.collision_pairs@
    }

    /// No bodies, colliders or pairs
    pub fn new() -> (r: Self)
        ensures
            r.body_colliders() == Seq::<Seq<usize>>::empty(),
            r.spec_collider_count() == 0,
            r.pairs() == Seq::<(usize, usize)>::empty(),
    {
        let r = WorldIndex { bodies: Vec::new(), collider_count: 0, collision_pairs: Vec::new() };
        proof {
            assert(r.body_colliders() =~= Seq::<Seq<usize>>::empty());
        }
        r
    }

    /// The number of bodies
    pub fn body_count(&self) -> (r: usize)
        ensures
            r == self.body_colliders().len(),
    {
        self.bodies.len()
    }

    /// The number of colliders
    pub fn collider_count(&self) -> (r: usize)
        ensures
            r == self.spec_collider_count(),
    {
        self.collider_count
    }

    /// The collider indices of a body, or `None` for an index past the bodies
    pub fn collider_indices(&self, body: usize) -> (r: Option<&[usize]>)
        ensures
            match r {
                Some(s) => body < self.body_colliders().len() && s@ == self.body_colliders()[body as int],
                None => body >= self.body_colliders().len(),
            },
    {
        if body < self.bodies.len() {
            Some(self.bodies[body].collider_indices())
        } else {
            None
        }
    }

    /// The broad-phase pairs
    pub fn collision_pairs(&self) -> (r: &[(usize, usize)])
        ensures
            r@ == self.pairs(),
    {
        self.collision_pairs.as_slice()
    }

    /// Add a body without colliders and return its index
    pub fn add_body(&mut self) -> (r: usize)
        ensures
            r == old(self).body_colliders().len(),
            final(self).body_colliders() == old(self).body_colliders().push(Seq::<usize>::empty()),
            final(self).spec_collider_count() == old(self).spec_collider_count(),
            final(self).pairs() == old(self).pairs(),
    {
        let index = self.bodies.len();
        self.bodies.push(ColliderIndices::new());
        proof {
            assert(self.body_colliders() =~= old(self).body_colliders().push(Seq::<usize>::empty()));
        }
        index
    }

    /// Add a collider, attached to `body` when that is a body, and return
    /// its index (the number of colliders before)
    pub fn add_collider(&mut self, body: usize) -> (r: usize)
        requires
            old(self).spec_collider_count() < usize::MAX,
        ensures
            r == old(self).spec_collider_count(),
            final(self).spec_collider_count() == old(self).spec_collider_count() + 1,
            final(self).body_colliders() == if body < old(self).body_colliders().len() {
                let cs = old(self).body_colliders()[body as int];
                old(self).body_colliders().update(
                    body as int,
                    if cs.contains(r) {
                        cs
                    } else {
                        cs.push(r)
                    },
                )
            } else {
                old(self).body_colliders()
            },
            final(self).pairs() == old(self).pairs(),
    {
        let index = self.collider_count;
        if body < self.bodies.len() {
            self.bodies[body].add_collider_index(index);
        }
        self.collider_count = self.collider_count + 1;
        proof {
            if body < old(self).body_colliders().len() {
                let cs = old(self).body_colliders()[body as int];
                assert(self.body_colliders() =~= old(self).body_colliders().update(
                    body as int,
                    if cs.contains(index) {
                        cs
                    } else {
                        cs.push(index)
                    },
                ));
            } else {
                assert(self.body_colliders() =~= old(self).body_colliders());
            }
        }
        index
    }

    /// Record a broad-phase pair
    pub fn add_collision_pair(&mut self, a: usize, b: usize)
        ensures
            final(self).pairs() == old(self).pairs().push((a, b)),
            final(self).body_colliders() == old(self).body_colliders(),
            final(self).spec_collider_count() == old(self).spec_collider_count(),
    {
        self.collision_pairs.push((a, b));
    }

    /// Forget the broad-phase pairs
    pub fn clear_collision_pairs(&mut self)
        ensures
            final(self).pairs() == Seq::<(usize, usize)>::empty(),
            final(self).body_colliders() == old(self).body_colliders(),
            final(self).spec_collider_count() == old(self).spec_collider_count(),
    {
        self.collision_pairs.clear();
    }

    /// Remove the collider at `index`: detach it from every body, move the
    /// indices above it down by one, and drop the pairs that now name an
    /// index past the colliders. An index past the colliders changes nothing.
    pub fn remove_collider(&mut self, index: usize)
        ensures
            index >= old(self).spec_collider_count() ==> {
                &&& final(self).body_colliders() == old(self).body_colliders()
                &&& final(self).spec_collider_count() == old(self).spec_collider_count()
                &&& final(self).pairs() == old(self).pairs()
            },
            index < old(self).spec_collider_count() ==> {
                &&& final(self).body_colliders() == old(self).body_colliders().map_values(
                    |cs: Seq<usize>| detached(cs, index),
                )
                &&& final(self).spec_collider_count() == old(self).spec_collider_count() - 1
                &&& final(self).pairs() == old(self).pairs().filter(
                    pair_below((old(self).spec_collider_count() - 1) as usize),
                )
            },
    {
        if index >= self.collider_count {
            return;
        }
        let ghost old_bodies = self.bodies@;
        let n = self.bodies.len();
        let mut i: usize = 0;
        while i < n
            invariant
                n == self.bodies@.len(),
                old_bodies.len() == n,
                0 <= i <= n,
                self.collider_count == old(self).collider_count,
                self.collision_pairs@ == old(self).collision_pairs@,
                old_bodies == old(self).bodies@,
                forall|j: int| 0 <= j < i ==> (#[trigger] self.bodies@[j])@ == detached(old_bodies[j]@, index),
                forall|j: int| i <= j < n ==> (#[trigger] self.bodies@[j])@ == old_bodies[j]@,
            decreases n - i,
        {
            self.bodies[i].remove_collider_index(index);
            self.bodies[i].update_collider_indices_after_remove(index);
            proof {
                assert(self.bodies@[i as int]@ =~= detached(old_bodies[i as int]@, index));
            }
            i += 1;
        }
        self.collider_count = self.collider_count - 1;
        proof {
            assert(self.body_colliders() =~= old(self).body_colliders().map_values(
                |cs: Seq<usize>| detached(cs, index),
            ));
        }
        self.prune_pairs();
    }

    /// Remove the body at `index` together with its colliders, and return
    /// the positions of the removed colliders, highest first (the order in
    /// which to take them out of the collider list): the positions below the
    /// collider count that the body names. The other bodies' indices are
    /// left as they are; the pairs that now name an index past the colliders
    /// are dropped. An index past the bodies changes nothing.
    pub fn remove_body(&mut self, index: usize) -> (r: Vec<usize>)
        ensures
            index >= old(self).body_colliders().len() ==> {
                &&& r@ == Seq::<usize>::empty()
                &&& final(self).body_colliders() == old(self).body_colliders()
                &&& final(self).spec_collider_count() == old(self).spec_collider_count()
                &&& final(self).pairs() == old(self).pairs()
            },
            index < old(self).body_colliders().len() ==> {
                let count = old(self).spec_collider_count();
                &&& r@ == named_desc(old(self).body_colliders()[index as int], count, count as nat)
                &&& final(self).body_colliders() == old(self).body_colliders().remove(index as int)
                &&& final(self).spec_collider_count() == count - r@.len()
                &&& final(self).pairs() == old(self).pairs().filter(
                    pair_below(final(self).spec_collider_count()),
                )
            },
    {
        if index >= self.bodies.len() {
            return Vec::new();
        }
        let count = self.collider_count;
        let mut removed: Vec<usize> = Vec::new();
        {
            let cs = self.bodies[index].collider_indices();
            let mut k: usize = 0;
            while k < count
                invariant
                    0 <= k <= count,
                    removed@ == named_desc(cs@, count, k as nat),
                    removed@.len() <= k,
                decreases count - k,
            {
                let p = count - 1 - k;
                if slice_names(cs, p) {
                    removed.push(p);
                }
                k += 1;
            }
        }
        self.collider_count = count - removed.len();
        self.bodies.remove(index);
        proof {
            assert(self.body_colliders() =~= old(self).body_colliders().remove(index as int));
        }
        self.prune_pairs();
        removed
    }

    /// Drop the pairs that name a collider index past the colliders
    fn prune_pairs(&mut self)
        ensures
            final(self).pairs() == old(self).pairs().filter(pair_below(old(self).spec_collider_count())),
            final(self).body_colliders() == old(self).body_colliders(),
            final(self).spec_collider_count() == old(self).spec_collider_count(),
    {
        let n = self.collider_count;
        let ghost s = self.collision_pairs@;
        let m = self.collision_pairs.len();
        let mut kept: Vec<(usize, usize)> = Vec::new();
        let mut i: usize = 0;
        while i < m
            invariant
                m == self.collision_pairs@.len(),
                self.collision_pairs@ == s,
                0 <= i <= m,
                kept@ == s.take(i as int).filter(pair_below(n)),
            decreases m - i,
        {
            proof {
                assert(s.take(i as int + 1) =~= s.take(i as int).push(s[i as int]));
                s.take(i as int).lemma_filter_push(s[i as int], pair_below(n));
            }
            let p = self.collision_pairs[i];
            if p.0 < n && p.1 < n {
                kept.push(p);
            }
            i += 1;
        }
        proof {
            assert(s.take(m as int) =~= s);
        }
        self.collision_pairs = kept;
    }
}

/// The positions a body removal hands back are below the collider count,
/// strictly decreasing, and exactly those below the count that the body
/// names.
pub proof fn lemma_named_desc(cs: Seq<usize>, count: usize, k: nat)
    requires
        k <= count,
    ensures
        forall|j: int| 0 <= j < named_desc(cs, count, k).len() ==> {
            let p = #[trigger] named_desc(cs, count, k)[j];
            &&& count - k <= p < count
            &&& cs.contains(p)
        },
        forall|i: int, j: int| 0 <= i < j < named_desc(cs, count, k).len() ==> named_desc(cs, count, k)[i]
            > named_desc(cs, count, k)[j],
        forall|p: usize| count - k <= p < count && cs.contains(p) ==> named_desc(cs, count, k).contains(p),
    decreases k,
{
    if k > 0 {
        lemma_named_desc(cs, count, (k - 1) as nat);
        let prev = named_desc(cs, count, (k - 1) as nat);
        let q = (count - k) as usize;
        if cs.contains(q) {
            let cur = prev.push(q);
            assert(cur == named_desc(cs, count, k));
            assert forall|p: usize| count - k <= p < count && cs.contains(p) implies cur.contains(p) by {
                if p == q {
                    assert(cur[prev.len() as int] == q);
                } else {
                    let j = choose|j: int| 0 <= j < prev.len() && prev[j] == p;
                    assert(cur[j] == p);
                }
            }
        }
    }
}

/// Removing a collider leaves every body pointing at the same colliders:
/// position for position, each body's new indices name, in the shortened
/// collider list, what its kept indices named before; and indices that were
/// in range stay in range.
pub proof fn lemma_remove_collider_keeps_references<T>(colliders: Seq<T>, bodies: Seq<Seq<usize>>, removed: usize)
    requires
        removed < colliders.len(),
        forall|b: int, j: int| 0 <= b < bodies.len() && 0 <= j < bodies[b].len() ==> (#[trigger] bodies[b][j]
            as int) < colliders.len(),
    ensures
        forall|b: int| 0 <= b < bodies.len() ==> {
            let kept = #[trigger] bodies[b].filter(is_other_index(removed));
            let now = detached(bodies[b], removed);
            &&& now.len() == kept.len()
            &&& forall|j: int|
                0 <= j < now.len() ==> {
                    &&& (now[j] as int) < colliders.len() - 1
                    &&& colliders.remove(removed as int)[now[j] as int] == colliders[#[trigger] kept[j] as int]
                }
        },
{
    assert forall|b: int| 0 <= b < bodies.len() implies {
        let kept = #[trigger] bodies[b].filter(is_other_index(removed));
        let now = detached(bodies[b], removed);
        &&& now.len() == kept.len()
        &&& forall|j: int|
            0 <= j < now.len() ==> {
                &&& (now[j] as int) < colliders.len() - 1
                &&& colliders.remove(removed as int)[now[j] as int] == colliders[#[trigger] kept[j] as int]
            }
    } by {
        assert forall|j: int| 0 <= j < bodies[b].len() implies (#[trigger] bodies[b][j] as int) < colliders.len() by {}
        lemma_detach_keeps_references(colliders, bodies[b], removed);
        colliders.remove_ensures(removed as int);
    }
}

} // verus!
