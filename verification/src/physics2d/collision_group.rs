use vstd::prelude::*;

verus! {

/// Collision group packed into one 32-bit word: the low sixteen bits are the
/// memberships (the groups the body is in), the high sixteen bits the filters
/// (the groups it may collide with). Its view is the packed word.
#[derive(Debug, Clone, Copy, PartialEq, Eq, Structural)]
pub struct CollisionGroup(u32);

impl View for CollisionGroup {
    type V = u32;

    closed spec fn view(&self) -> u32 {
        self.0
    }
}

/// The membership half of a packed word.
pub open spec fn memberships_of(w: u32) -> u32 {
    w & 0xFFFF
}

/// The filter half of a packed word.
pub open spec fn filters_of(w: u32) -> u32 {
    (w >> 16u32) & 0xFFFF
}

/// The word that `new(memberships, filters)` packs (the shifted filters lose
/// their top sixteen bits; the memberships are not masked).
pub open spec fn pack(memberships: u32, filters: u32) -> u32 {
    memberships | ((filters << 16u32) as u32)
}

/// Two packed groups interact when their memberships meet and their filters meet.
pub open spec fn groups_interact(a: u32, b: u32) -> bool {
    memberships_of(a) & memberships_of(b) != 0 && filters_of(a) & filters_of(b) != 0
}

impl Default for CollisionGroup {
    fn default() -> (r: Self)
        ensures
            r@ == 0xFFFF_FFFFu32,
    {
        Self::with_all()
    }
}

impl CollisionGroup {
    /// Create a group from membership and filter masks
    pub fn new(memberships: u32, filters: u32) -> (r: Self)
        ensures
            r@ == pack(memberships, filters),
    {
        CollisionGroup(memberships | (filters << 16u32))
    }

    /// The low sixteen bits
    fn memberships_bits(&self) -> (r: u32)
        ensures
            r == memberships_of(self@),
    {
        self.0 & 0xFFFF
    }

    /// The high sixteen bits
    fn filters_bits(&self) -> (r: u32)
        ensures
            r == filters_of(self@),
    {
        (self.0 >> 16u32) & 0xFFFF
    }

    /// Member of every group and colliding with every group
    pub fn with_all() -> (r: Self)
        ensures
            r@ == 0xFFFF_FFFFu32,
    {
        CollisionGroup(0xFFFF_FFFF)
    }

    /// Member of no group and colliding with none
    pub fn with_none() -> (r: Self)
        ensures
            r@ == 0,
    {
        CollisionGroup(0)
    }

    /// The membership mask
    pub fn memberships(&self) -> (r: u32)
        ensures
            r == memberships_of(self@),
    {
        self.memberships_bits()
    }

    /// The filter mask
    pub fn filters(&self) -> (r: u32)
        ensures
            r == filters_of(self@),
    {
        self.filters_bits()
    }

    /// Whether the body is a member of `group` (a valid shift amount)
    pub fn contains(&self, group: u32) -> (r: bool)
        requires
            group < 32,
        ensures
            r == (memberships_of(self@) & (1u32 << group) != 0),
    {
        (self.memberships() & (1u32 << group)) != 0
    }

    /// Add the body to `group` (a valid shift amount)
    pub fn add_group(self, group: u32) -> (r: Self)
        requires
            group < 32,
        ensures
            r@ == pack(memberships_of(self@) | (1u32 << group), filters_of(self@)),
    {
        let memberships = self.memberships() | (1u32 << group);
        let filters = self.filters();
        CollisionGroup(memberships | (filters << 16u32))
    }

    /// Remove the body from `group` (a valid shift amount)
    pub fn remove_group(self, group: u32) -> (r: Self)
        requires
            group < 32,
        ensures
            r@ == pack(memberships_of(self@) & !(1u32 << group), filters_of(self@)),
    {
        let memberships = self.memberships() & !(1u32 << group);
        let filters = self.filters();
        CollisionGroup(memberships | (filters << 16u32))
    }

    /// Replace the filters by the low sixteen bits of `filters`
    pub fn with_filters(self, filters: u32) -> (r: Self)
        ensures
            r@ == pack(memberships_of(self@), filters & 0xFFFF),
    {
        let memberships = self.memberships();
        CollisionGroup(memberships | ((filters & 0xFFFF) << 16u32))
    }

    /// Whether the two bodies can interact: memberships meet and filters meet
    pub fn can_interact_with(self, other: CollisionGroup) -> (r: bool)
        ensures
            r == groups_interact(self@, other@),
    {
        let a_memberships = self.memberships();
        let a_filters = self.filters();
        let b_memberships = other.memberships();
        let b_filters = other.filters();
        let cond1 = (a_memberships & b_memberships) != 0;
        let cond2 = (a_filters & b_filters) != 0;
        cond1 && cond2
    }
}

/// Interaction is symmetric.
pub proof fn lemma_interact_symmetric(a: CollisionGroup, b: CollisionGroup)
    ensures
        groups_interact(a@, b@) == groups_interact(b@, a@),
{
    let (x, y) = (a@, b@);
    assert(((x & 0xFFFF) & (y & 0xFFFF) != 0) == ((y & 0xFFFF) & (x & 0xFFFF) != 0))
        by (bit_vector);
    assert((((x >> 16u32) & 0xFFFF) & ((y >> 16u32) & 0xFFFF) != 0) == (((y >> 16u32) & 0xFFFF)
        & ((x >> 16u32) & 0xFFFF) != 0)) by (bit_vector);
}

/// Packing then unpacking gives back the low sixteen bits of the filters, and
/// the memberships exactly when they fit in sixteen bits.
pub proof fn lemma_pack_unpack(memberships: u32, filters: u32)
    ensures
        filters_of(pack(memberships, filters)) == (filters & 0xFFFF) | ((memberships >> 16u32)
            & 0xFFFF),
        memberships_of(pack(memberships, filters)) == memberships & 0xFFFF,
        memberships <= 0xFFFF ==> filters_of(pack(memberships, filters)) == filters & 0xFFFF,
{
    assert(((((memberships | ((filters << 16u32) as u32)) >> 16u32) & 0xFFFF) == (filters
        & 0xFFFF) | ((memberships >> 16u32) & 0xFFFF))) by (bit_vector);
    assert((memberships | ((filters << 16u32) as u32)) & 0xFFFF == memberships & 0xFFFF)
        by (bit_vector);
    assert(memberships <= 0xFFFF ==> (memberships >> 16u32) & 0xFFFF == 0) by (bit_vector);
    assert(((filters & 0xFFFF) | 0) == filters & 0xFFFF) by (bit_vector);
}

/// For a group below sixteen: adding it makes the body a member, removing it
/// makes the body no longer a member, and neither touches the filters or the
/// other memberships.
pub proof fn lemma_add_remove_group(w: u32, group: u32, other: u32)
    requires
        group < 16,
        other < 16,
    ensures
        memberships_of(pack(memberships_of(w) | (1u32 << group), filters_of(w))) & (1u32
            << group) != 0,
        memberships_of(pack(memberships_of(w) & !(1u32 << group), filters_of(w))) & (1u32
            << group) == 0,
        filters_of(pack(memberships_of(w) | (1u32 << group), filters_of(w))) == filters_of(w),
        filters_of(pack(memberships_of(w) & !(1u32 << group), filters_of(w))) == filters_of(w),
        other != group ==> (memberships_of(pack(memberships_of(w) | (1u32 << group), filters_of(w)))
            & (1u32 << other) != 0) == (memberships_of(w) & (1u32 << other) != 0),
        other != group ==> (memberships_of(pack(memberships_of(w) & !(1u32 << group), filters_of(w)))
            & (1u32 << other) != 0) == (memberships_of(w) & (1u32 << other) != 0),
{
    assert(((((w & 0xFFFF) | (1u32 << group)) | (((((w >> 16u32) & 0xFFFF) << 16u32) as u32)))
        & 0xFFFF) & (1u32 << group) != 0) by (bit_vector)
        requires
            group < 16,
    ;
    assert(((((w & 0xFFFF) & !(1u32 << group)) | (((((w >> 16u32) & 0xFFFF) << 16u32) as u32)))
        & 0xFFFF) & (1u32 << group) == 0) by (bit_vector)
        requires
            group < 16,
    ;
    assert(((((((w & 0xFFFF) | (1u32 << group)) | (((((w >> 16u32) & 0xFFFF) << 16u32) as u32)))
        >> 16u32) & 0xFFFF) == (w >> 16u32) & 0xFFFF)) by (bit_vector)
        requires
            group < 16,
    ;
    assert(((((((w & 0xFFFF) & !(1u32 << group)) | (((((w >> 16u32) & 0xFFFF) << 16u32) as u32)))
        >> 16u32) & 0xFFFF) == (w >> 16u32) & 0xFFFF)) by (bit_vector);
    assert(other != group ==> (((((w & 0xFFFF) | (1u32 << group)) | (((((w >> 16u32) & 0xFFFF)
        << 16u32) as u32))) & 0xFFFF) & (1u32 << other) != 0) == ((w & 0xFFFF) & (1u32 << other)
        != 0)) by (bit_vector)
        requires
            group < 16,
            other < 16,
    ;
    assert(other != group ==> (((((w & 0xFFFF) & !(1u32 << group)) | (((((w >> 16u32) & 0xFFFF)
        << 16u32) as u32))) & 0xFFFF) & (1u32 << other) != 0) == ((w & 0xFFFF) & (1u32 << other)
        != 0)) by (bit_vector)
        requires
            group < 16,
            other < 16,
    ;
}

/// Setting the filters keeps the memberships.
pub proof fn lemma_with_filters_keeps_memberships(w: u32, filters: u32)
    ensures
        memberships_of(pack(memberships_of(w), filters & 0xFFFF)) == memberships_of(w),
        filters_of(pack(memberships_of(w), filters & 0xFFFF)) == filters & 0xFFFF,
{
    assert(((w & 0xFFFF) | ((((filters & 0xFFFF) << 16u32) as u32))) & 0xFFFF == w & 0xFFFF)
        by (bit_vector);
    assert(((((w & 0xFFFF) | ((((filters & 0xFFFF) << 16u32) as u32))) >> 16u32) & 0xFFFF)
        == filters & 0xFFFF) by (bit_vector);
}

/// Two packed groups interact exactly when their words share a set bit in
/// the low (membership) half and a set bit in the high (filter) half; how
/// one group's memberships meet the other's filters plays no part. For
/// groups made by `new` from sixteen-bit masks: they interact exactly when
/// the membership masks meet and the filter masks meet.
pub proof fn lemma_interact_shared_bits(x: u32, y: u32, m1: u32, f1: u32, m2: u32, f2: u32)
    ensures
        groups_interact(x, y) == ((x & y) & 0xFFFFu32 != 0 && (x & y) >> 16u32 != 0),
        m1 <= 0xFFFF && f1 <= 0xFFFF && m2 <= 0xFFFF && f2 <= 0xFFFF ==> groups_interact(
            pack(m1, f1),
            pack(m2, f2),
        ) == (m1 & m2 != 0 && f1 & f2 != 0),
{
    assert(((x & 0xFFFF) & (y & 0xFFFF) != 0 && ((x >> 16u32) & 0xFFFF) & ((y >> 16u32) & 0xFFFF) != 0)
        == ((x & y) & 0xFFFFu32 != 0 && (x & y) >> 16u32 != 0)) by (bit_vector);
    let p1 = pack(m1, f1);
    let p2 = pack(m2, f2);
    assert(m1 <= 0xFFFF && f1 <= 0xFFFF && m2 <= 0xFFFF && f2 <= 0xFFFF ==> ((p1 & 0xFFFF) & (p2
        & 0xFFFF) != 0 && ((p1 >> 16u32) & 0xFFFF) & ((p2 >> 16u32) & 0xFFFF) != 0) == (m1 & m2 != 0
        && f1 & f2 != 0)) by (bit_vector)
        requires
            p1 == m1 | ((f1 << 16u32) as u32),
            p2 == m2 | ((f2 << 16u32) as u32),
    ;
}

/// A group interacts with itself exactly when it is in some group and
/// filters some group; whether its memberships meet its own filters plays
/// no part.
pub proof fn lemma_interact_with_itself(w: u32)
    ensures
        groups_interact(w, w) == (w & 0xFFFFu32 != 0 && w >> 16u32 != 0),
{
    assert(((w & 0xFFFF) & (w & 0xFFFF) != 0 && ((w >> 16u32) & 0xFFFF) & ((w >> 16u32) & 0xFFFF)
        != 0) == (w & 0xFFFFu32 != 0 && w >> 16u32 != 0)) by (bit_vector);
}

/// Two groups with the same packed bits are the same value.
pub proof fn lemma_packed_group_view_injective(a: CollisionGroup, b: CollisionGroup)
    ensures
        a@ == b@ ==> a == b,
{
}

} // verus!
