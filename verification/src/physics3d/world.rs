//! Slot bookkeeping of a 3D physics world: which body, collider and joint
//! slots are in use, and under which generation, so that a handle to a
//! removed object is recognised as stale even after its slot is reused.

use vstd::prelude::*;

verus! {

/// Generation and liveness of one slot
#[derive(Debug, Clone, Copy, PartialEq, Eq, Structural)]
pub struct SlotVersion {
    /// Times the slot has been reused
    pub generation: u32,
    /// Whether the slot holds a live object
    pub is_valid: bool,
}

/// The slot versions of one kind of object (bodies, colliders or joints)
pub struct SlotVersions {
    slots: Vec<SlotVersion>,
}

impl View for SlotVersions {
    type V = Seq<SlotVersion>;

    closed spec fn view(&self) -> Seq<SlotVersion> {
        self.slots@
    }
}

/// Index of the first free slot at or after `i`, or the length when none is free.
pub open spec fn first_free_from(s: Seq<SlotVersion>, i: int) -> int
    decreases s.len() - i,
{
    if i >= s.len() || i < 0 {
        s.len() as int
    } else if !s[i].is_valid {
        i
    } else {
        first_free_from(s, i + 1)
    }
}

/// Index of the first free slot, or the length when none is free.
pub open spec fn first_free(s: Seq<SlotVersion>) -> int {
    first_free_from(s, 0)
}

/// Whether an insertion has room: every index fits in a `u32` handle, and
/// the first free slot, if any, has a generation that can still grow.
pub open spec fn can_insert(s: Seq<SlotVersion>) -> bool {
    let i = first_free(s);
    &&& s.len() < u32::MAX
    &&& i < s.len() ==> s[i].generation < u32::MAX
}

/// Slots after an insertion, and the handle (index, generation) it hands out:
/// the first free slot is reused under the next generation; when none is
/// free, a new slot of generation 0 is appended.
pub open spec fn inserted(s: Seq<SlotVersion>) -> (Seq<SlotVersion>, (u32, u32)) {
    let i = first_free(s);
    if i < s.len() {
        let g = (s[i].generation + 1) as u32;
        (s.update(i, SlotVersion { generation: g, is_valid: true }), (i as u32, g))
    } else {
        (s.push(SlotVersion { generation: 0, is_valid: true }), (s.len() as u32, 0u32))
    }
}

/// Whether a handle names a live object: its slot exists, is in use, and
/// carries the handle's generation.
pub open spec fn is_live(s: Seq<SlotVersion>, index: u32, generation: u32) -> bool {
    &&& (index as int) < s.len()
    &&& s[index as int].is_valid
    &&& s[index as int].generation == generation
}

/// Slots after removing a handle: a live handle's slot is freed, keeping
/// its generation; any other handle changes nothing.
pub open spec fn removed(s: Seq<SlotVersion>, index: u32, generation: u32) -> Seq<SlotVersion> {
    if is_live(s, index, generation) {
        s.update(index as int, SlotVersion { generation, is_valid: false })
    } else {
        s
    }
}

/// Number of live slots
pub open spec fn live_count(s: Seq<SlotVersion>) -> nat
    decreases s.len(),
{
    if s.len() == 0 {
        0
    } else {
        live_count(s.drop_last()) + if s.last().is_valid {
            1nat
        } else {
            0nat
        }
    }
}

/// Handles of the live slots among the first `n`, in index order
pub open spec fn live_handles_upto(s: Seq<SlotVersion>, n: int) -> Seq<(u32, u32)>
    decreases n,
{
    if n <= 0 {
        Seq::empty()
    } else {
        let prev = live_handles_upto(s, n - 1);
        if s[n - 1].is_valid {
            prev.push(((n - 1) as u32, s[n - 1].generation))
        } else {
            prev
        }
    }
}

proof fn lemma_first_free_skip(s: Seq<SlotVersion>, k: int, i: int)
    requires
        0 <= k <= i,
        forall|j: int| k <= j < i ==> #[trigger] s[j].is_valid,
    ensures
        first_free_from(s, k) == first_free_from(s, i),
    decreases i - k,
{
    if k < i {
        lemma_first_free_skip(s, k + 1, i);
    }
}

proof fn lemma_first_free_bounds(s: Seq<SlotVersion>, i: int)
    requires
        0 <= i,
    ensures
        first_free_from(s, i) <= s.len(),
        first_free_from(s, i) < s.len() ==> !s[first_free_from(s, i)].is_valid,
        first_free_from(s, i) < s.len() ==> i <= first_free_from(s, i),
    decreases s.len() - i,
{
    if i < s.len() && s[i].is_valid {
        lemma_first_free_bounds(s, i + 1);
    }
}

proof fn lemma_live_count_update(s: Seq<SlotVersion>, i: int, v: SlotVersion)
    requires
        0 <= i < s.len(),
    ensures
        live_count(s.update(i, v)) + (if s[i].is_valid {
            1int
        } else {
            0int
        }) == live_count(s) + (if v.is_valid {
            1int
        } else {
            0int
        }),
    decreases s.len(),
{
    let t = s.update(i, v);
    if i == s.len() - 1 {
        assert(t.drop_last() =~= s.drop_last());
    } else {
        assert(t.drop_last() =~= s.drop_last().update(i, v));
        lemma_live_count_update(s.drop_last(), i, v);
    }
}

proof fn lemma_live_count_bound(s: Seq<SlotVersion>)
    ensures
        live_count(s) <= s.len(),
    decreases s.len(),
{
    if s.len() > 0 {
        lemma_live_count_bound(s.drop_last());
    }
}

impl SlotVersions {
    /// No slots
    pub fn new() -> (r: Self)
        ensures
            r@ == Seq::<SlotVersion>::empty(),
    {
        SlotVersions { slots: Vec::new() }
    }

    /// Number of slots, live or free
    pub fn len(&self) -> (r: usize)
        ensures
            r == self@.len(),
    {
        self.slots.len()
    }

    /// Take a slot for a new object and hand out its (index, generation):
    /// the first free slot under the next generation, or a new slot of
    /// generation 0. `None`, with nothing changed, when there is no room
    /// (see `can_insert`).
    pub fn insert(&mut self) -> (r: Option<(u32, u32)>)
        ensures
            can_insert(old(self)@) ==> r == Some(inserted(old(self)@).1) && final(self)@
                == inserted(old(self)@).0,
            !can_insert(old(self)@) ==> r is None && final(self)@ == old(self)@,
    {
        let ghost s = self.slots@;
        let n = self.slots.len();
        if n >= u32::MAX as usize {
            return None;
        }
        let mut i: usize = 0;
        while i < n
            invariant
                n == self.slots.len(),
                self.slots@ == s,
                s == old(self)@,
                0 <= i <= n,
                n < u32::MAX,
                forall|j: int| 0 <= j < i ==> #[trigger] s[j].is_valid,
            decreases n - i,
        {
            if !self.slots[i].is_valid {
                proof {
                    lemma_first_free_skip(s, 0, i as int);
                }
                let g = self.slots[i].generation;
                if g == u32::MAX {
                    return None;
                }
                let ng = g + 1;
                self.slots.set(i, SlotVersion { generation: ng, is_valid: true });
                return Some((i as u32, ng));
            }
            i += 1;
        }
        proof {
            lemma_first_free_skip(s, 0, n as int);
        }
        self.slots.push(SlotVersion { generation: 0, is_valid: true });
        Some((n as u32, 0))
    }

    /// Free the slot of a live handle; any other handle changes nothing.
    pub fn remove(&mut self, index: u32, generation: u32)
        ensures
            final(self)@ == removed(old(self)@, index, generation),
    {
        if self.is_live(index, generation) {
            let i = index as usize;
            self.slots.set(i, SlotVersion { generation, is_valid: false });
        }
    }

    /// Whether the handle names a live object
    pub fn is_live(&self, index: u32, generation: u32) -> (r: bool)
        ensures
            r == is_live(self@, index, generation),
    {
        let i = index as usize;
        if i >= self.slots.len() {
            return false;
        }
        let v = self.slots[i];
        v.is_valid && v.generation == generation
    }

    /// Number of live objects
    pub fn live_count(&self) -> (r: usize)
        ensures
            r == live_count(self@),
    {
        let n = self.slots.len();
        let mut c: usize = 0;
        let mut i: usize = 0;
        while i < n
            invariant
                n == self.slots.len(),
                0 <= i <= n,
                c == live_count(self.slots@.take(i as int)),
                c <= i,
            decreases n - i,
        {
            proof {
                let s = self.slots@;
                assert(s.take(i as int + 1).drop_last() =~= s.take(i as int));
            }
            if self.slots[i].is_valid {
                c += 1;
            }
            i += 1;
        }
        proof {
            assert(self.slots@.take(n as int) =~= self.slots@);
        }
        c
    }

    /// Handles (index, generation) of the live objects, in index order
    pub fn live_handles(&self) -> (r: Vec<(u32, u32)>)
        ensures
            r@ == live_handles_upto(self@, self@.len() as int),
    {
        let n = self.slots.len();
        let mut out: Vec<(u32, u32)> = Vec::new();
        let mut i: usize = 0;
        while i < n
            invariant
                n == self.slots.len(),
                0 <= i <= n,
                out@ == live_handles_upto(self.slots@, i as int),
            decreases n - i,
        {
            let v = self.slots[i];
            if v.is_valid {
                out.push((i as u32, v.generation));
            }
            i += 1;
        }
        out
    }

    /// Forget every slot
    pub fn clear(&mut self)
        ensures
            final(self)@ == Seq::<SlotVersion>::empty(),
    {
        self.slots.clear();
    }
}

impl Default for SlotVersions {
    fn default() -> (r: Self)
        ensures
            r@ == Seq::<SlotVersion>::empty(),
    {
        Self::new()
    }
}

/// The handle that an insertion hands out names a live object.
pub proof fn lemma_inserted_handle_is_live(s: Seq<SlotVersion>)
    requires
        can_insert(s),
    ensures
        is_live(inserted(s).0, inserted(s).1.0, inserted(s).1.1),
{
    lemma_first_free_bounds(s, 0);
}

/// An insertion brings exactly one handle to life, the one it hands out:
/// every other handle is live after it exactly when it was live before.
pub proof fn lemma_insert_keeps_other_handles(s: Seq<SlotVersion>, index: u32, generation: u32)
    requires
        can_insert(s),
    ensures
        is_live(inserted(s).0, index, generation) <==> (is_live(s, index, generation) || (
        index, generation) == inserted(s).1),
{
    lemma_first_free_bounds(s, 0);
}

/// A removed handle no longer names a live object.
pub proof fn lemma_removed_handle_is_dead(s: Seq<SlotVersion>, index: u32, generation: u32)
    ensures
        !is_live(removed(s, index, generation), index, generation),
{
}

/// Removing one handle leaves every other handle as live as it was.
pub proof fn lemma_remove_keeps_other_handles(
    s: Seq<SlotVersion>,
    index: u32,
    generation: u32,
    other_index: u32,
    other_generation: u32,
)
    requires
        (index, generation) != (other_index, other_generation),
    ensures
        is_live(removed(s, index, generation), other_index, other_generation) <==> is_live(
            s,
            other_index,
            other_generation,
        ),
{
}

/// A stale handle stays stale: once removed, a handle is not brought back
/// to life by the insertion that reuses its slot.
pub proof fn lemma_stale_handle_stays_dead(s: Seq<SlotVersion>, index: u32, generation: u32)
    requires
        is_live(s, index, generation),
        can_insert(removed(s, index, generation)),
    ensures
        !is_live(inserted(removed(s, index, generation)).0, index, generation),
{
    let t = removed(s, index, generation);
    lemma_removed_handle_is_dead(s, index, generation);
    lemma_insert_keeps_other_handles(t, index, generation);
    lemma_first_free_bounds(t, 0);
}

/// An insertion adds one live object; removing a live handle takes one away.
pub proof fn lemma_live_count_insert_remove(s: Seq<SlotVersion>, index: u32, generation: u32)
    ensures
        can_insert(s) ==> live_count(inserted(s).0) == live_count(s) + 1,
        is_live(s, index, generation) ==> live_count(removed(s, index, generation)) + 1
            == live_count(s),
{
    lemma_first_free_bounds(s, 0);
    let i = first_free(s);
    if can_insert(s) {
        if i < s.len() {
            lemma_live_count_update(s, i, inserted(s).0[i]);
        } else {
            assert(inserted(s).0.drop_last() =~= s);
        }
    }
    if is_live(s, index, generation) {
        lemma_live_count_update(s, index as int, SlotVersion { generation, is_valid: false });
    }
}

/// There are never more live objects than slots.
pub proof fn lemma_live_count_at_most_len(s: Seq<SlotVersion>)
    ensures
        live_count(s) <= s.len(),
{
    lemma_live_count_bound(s);
}

} // verus!
