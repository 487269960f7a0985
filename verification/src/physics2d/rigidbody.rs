use vstd::prelude::*;

verus! {

/// Kind of a 2D rigid body
#[derive(Debug, Clone, Copy, PartialEq, Eq, Structural)]
pub enum RigidBodyType {
    /// Moved by forces
    Dynamic,
    /// Never moves
    Static,
    /// Moved by code, but pushes other bodies
    Kinematic,
}

impl Default for RigidBodyType {
    fn default() -> (r: Self)
        ensures
            r == RigidBodyType::Dynamic,
    {
        RigidBodyType::Dynamic
    }
}


/// Indices of the colliders attached to a 2D rigid body, in the order they
/// were attached.
pub struct ColliderIndices {
    indices: Vec<usize>,
}

impl View for ColliderIndices {
    type V = Seq<usize>;

    closed spec fn view(&self) -> Seq<usize> {
        self.indices@
    }
}

/// Position of a collider index once the collider at `removed` is gone:
/// indices above it move down by one.
pub open spec fn shifted_index(i: usize, removed: usize) -> usize {
    if i > removed {
        (i - 1) as usize
    } else {
        i
    }
}

/// Keeps the indices other than `index`.
pub open spec fn is_other_index(index: usize) -> spec_fn(usize) -> bool {
    |i: usize| i != index
}

impl ColliderIndices {
    /// No collider attached
    pub fn new() -> (r: Self)
        ensures
            r@ == Seq::<usize>::empty(),
    {
        ColliderIndices { indices: Vec::new() }
    }

    /// Attach a collider index, unless it is attached already
    pub fn add_collider_index(&mut self, index: usize)
        ensures
            final(self)@ == if old(self)@.contains(index) {
                old(self)@
            } else {
                old(self)@.push(index)
            },
    {
        let n = self.indices.len();
        let mut i: usize = 0;
        while i < n
            invariant
                n == self.indices.len(),
                self.indices@ == old(self)@,
                0 <= i <= n,
                forall|j: int| 0 <= j < i ==> self.indices@[j] != index,
            decreases n - i,
        {
            if self.indices[i] == index {
                return;
            }
            i += 1;
        }
        self.indices.push(index);
    }

    /// Detach every occurrence of a collider index
    pub fn remove_collider_index(&mut self, index: usize)
        ensures
            final(self)@ == old(self)@.filter(is_other_index(index)),
    {
        let ghost s = self.indices@;
        let n = self.indices.len();
        let mut kept: Vec<usize> = Vec::new();
        let mut i: usize = 0;
        while i < n
            invariant
                n == self.indices.len(),
                self.indices@ == s,
                0 <= i <= n,
                kept@ == s.take(i as int).filter(is_other_index(index)),
            decreases n - i,
        {
            proof {
                assert(s.take(i as int + 1) =~= s.take(i as int).push(s[i as int]));
                s.take(i as int).lemma_filter_push(s[i as int], is_other_index(index));
            }
            let x = self.indices[i];
            if x != index {
                kept.push(x);
            }
            i += 1;
        }
        proof {
            assert(s.take(n as int) =~= s);
        }
        self.indices = kept;
    }

    /// After the collider at `removed_index` was removed from the world,
    /// move every index above it down by one.
    pub fn update_collider_indices_after_remove(&mut self, removed_index: usize)
        ensures
            final(self)@ == old(self)@.map_values(|i: usize| shifted_index(i, removed_index)),
    {
        let n = self.indices.len();
        let mut i: usize = 0;
        while i < n
            invariant
                n == self.indices.len(),
                old(self)@.len() == n,
                0 <= i <= n,
                forall|j: int| 0 <= j < i ==> self.indices@[j] == shifted_index(old(self)@[j], removed_index),
                forall|j: int| i <= j < n ==> self.indices@[j] == old(self)@[j],
            decreases n - i,
        {
            let x = self.indices[i];
            if x > removed_index {
                self.indices.set(i, x - 1);
            }
            i += 1;
        }
        proof {
            assert(self.indices@ =~= old(self)@.map_values(|i: usize| shifted_index(i, removed_index)));
        }
    }

    /// The attached collider indices
    pub fn collider_indices(&self) -> (r: &[usize])
        ensures
            r@ == self@,
    {
        self.indices.as_slice()
    }
}

impl Default for ColliderIndices {
    fn default() -> (r: Self)
        ensures
            r@ == Seq::<usize>::empty(),
    {
        Self::new()
    }
}

/// Removing a collider from the world and then detaching and shifting its
/// index in a body's list leaves the body pointing at the same colliders as
/// before: position for position, the shifted list names, in the shortened
/// collider list, what the kept indices named in the old one.
pub proof fn lemma_detach_keeps_references<T>(colliders: Seq<T>, indices: Seq<usize>, removed: usize)
    requires
        removed < colliders.len(),
        forall|j: int| 0 <= j < indices.len() ==> (#[trigger] indices[j] as int) < colliders.len(),
    ensures
        ({
            let kept = indices.filter(is_other_index(removed));
            let shifted = kept.map_values(|i: usize| shifted_index(i, removed));
            &&& shifted.len() == kept.len()
            &&& forall|j: int|
                0 <= j < shifted.len() ==> {
                    &&& (shifted[j] as int) < colliders.remove(removed as int).len()
                    &&& colliders.remove(removed as int)[shifted[j] as int] == colliders[#[trigger] kept[j] as int]
                }
        }),
{
    broadcast use vstd::seq_lib::group_filter_ensures;

    let kept = indices.filter(is_other_index(removed));
    let shifted = kept.map_values(|i: usize| shifted_index(i, removed));
    colliders.remove_ensures(removed as int);
    assert forall|j: int| 0 <= j < shifted.len() implies {
        &&& (shifted[j] as int) < colliders.remove(removed as int).len()
        &&& colliders.remove(removed as int)[shifted[j] as int] == colliders[#[trigger] kept[j] as int]
    } by {
        let x = kept[j];
        assert(kept.contains(x));
        indices.lemma_filter_contains_rev(is_other_index(removed), x);
        let w = choose|w: int| 0 <= w < indices.len() && indices[w] == x;
        assert(indices[w] == x);
        assert(is_other_index(removed)(kept[j]));
    }
}

} // verus!
