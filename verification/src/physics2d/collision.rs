use vstd::prelude::*;

verus! {

/// A collision group: a 32-bit mask of the groups a body belongs to.
/// Its view is the raw mask.
#[derive(Debug, Clone, Copy, PartialEq, Eq, Structural)]
pub struct CollisionGroup(u32);

impl View for CollisionGroup {
    type V = u32;

    closed spec fn view(&self) -> u32 {
        self.0
    }
}

impl CollisionGroup {
    /// Create a group from raw bits
    pub fn new(bits: u32) -> (r: Self)
        ensures
            r@ == bits,
    {
        CollisionGroup(bits)
    }

    /// The empty group
    pub fn none() -> (r: Self)
        ensures
            r@ == 0,
    {
        CollisionGroup(0)
    }

    /// The group with every bit set
    pub fn all() -> (r: Self)
        ensures
            r@ == 0xFFFF_FFFFu32,
    {
        CollisionGroup(0xFFFF_FFFF)
    }

    /// The raw bits
    pub fn bits(&self) -> (r: u32)
        ensures
            r == self@,
    {
        self.0
    }

    /// Set one bit (`bit` must be a valid shift amount)
    pub fn with_bit(self, bit: u32) -> (r: Self)
        requires
            bit < 32,
        ensures
            r@ == self@ | (1u32 << bit),
    {
        CollisionGroup(self.0 | (1u32 << bit))
    }

    /// Whether one bit is set (`bit` must be a valid shift amount)
    pub fn contains(&self, bit: u32) -> (r: bool)
        requires
            bit < 32,
        ensures
            r == (self@ & (1u32 << bit) != 0),
    {
        (self.0 & (1u32 << bit)) != 0
    }

    /// Whether the two groups share a bit
    pub fn intersects(&self, other: &CollisionGroup) -> (r: bool)
        ensures
            r == (self@ & other@ != 0),
    {
        (self.0 & other.0) != 0
    }
}

impl Default for CollisionGroup {
    fn default() -> (r: Self)
        ensures
            r@ == 0xFFFF_FFFFu32,
    {
        Self::all()
    }
}

/// Collision filtering rule: a group and two masks.
#[derive(Debug)]
pub struct CollisionFilter {
    /// Group
    pub group: CollisionGroup,
    /// Mask A
    pub mask_a: u32,
    /// Mask B
    pub mask_b: u32,
}

/// When two filters let their bodies collide: the groups intersect, A's first
/// mask meets B's second mask and A's second mask meets B's first mask.
pub open spec fn filters_collide(a: CollisionFilter, b: CollisionFilter) -> bool {
    &&& a.group@ & b.group@ != 0
    &&& a.mask_a & b.mask_b != 0
    &&& a.mask_b & b.mask_a != 0
}

impl CollisionFilter {
    /// Whether the two filters let their bodies collide
    pub fn should_collide(&self, other: &CollisionFilter) -> (r: bool)
        ensures
            r == filters_collide(*self, *other),
    {
        if !self.group.intersects(&other.group) {
            return false;
        }
        if (self.mask_a & other.mask_b) == 0 {
            return false;
        }
        if (self.mask_b & other.mask_a) == 0 {
            return false;
        }
        true
    }
}

impl Clone for CollisionFilter {
    fn clone(&self) -> (r: Self)
        ensures
            r == *self,
    {
        CollisionFilter { group: self.group, mask_a: self.mask_a, mask_b: self.mask_b }
    }
}

impl Default for CollisionFilter {
    fn default() -> (r: Self)
        ensures
            r.group@ == 0xFFFF_FFFFu32,
            r.mask_a == 0xFFFF_FFFFu32,
            r.mask_b == 0xFFFF_FFFFu32,
    {
        CollisionFilter { group: CollisionGroup::all(), mask_a: 0xFFFF_FFFF, mask_b: 0xFFFF_FFFF }
    }
}

/// Setting a bit makes the group contain it, and keeps every other bit.
pub proof fn lemma_with_bit_contains(bits: u32, bit: u32, other: u32)
    requires
        bit < 32,
        other < 32,
    ensures
        (bits | (1u32 << bit)) & (1u32 << bit) != 0,
        other != bit ==> (((bits | (1u32 << bit)) & (1u32 << other) != 0) == (bits & (1u32
            << other) != 0)),
{
    assert((bits | (1u32 << bit)) & (1u32 << bit) != 0) by (bit_vector)
        requires
            bit < 32,
    ;
    assert(other != bit ==> (((bits | (1u32 << bit)) & (1u32 << other) != 0) == (bits & (1u32
        << other) != 0))) by (bit_vector)
        requires
            bit < 32,
            other < 32,
    ;
}

/// Group intersection is symmetric.
pub proof fn lemma_intersects_symmetric(a: CollisionGroup, b: CollisionGroup)
    ensures
        (a@ & b@ != 0) == (b@ & a@ != 0),
{
    let (x, y) = (a@, b@);
    assert((x & y != 0) == (y & x != 0)) by (bit_vector);
}

/// Filtering is symmetric: A collides with B exactly when B collides with A.
pub proof fn lemma_should_collide_symmetric(a: CollisionFilter, b: CollisionFilter)
    ensures
        filters_collide(a, b) == filters_collide(b, a),
{
    let (ga, gb) = (a.group@, b.group@);
    assert((ga & gb != 0) == (gb & ga != 0)) by (bit_vector);
    let (p, q, r, s) = (a.mask_a, a.mask_b, b.mask_a, b.mask_b);
    assert((p & s != 0) == (s & p != 0)) by (bit_vector);
    assert((q & r != 0) == (r & q != 0)) by (bit_vector);
}

/// The default filter collides with exactly those filters whose group and
/// masks are all nonzero.
pub proof fn lemma_default_filter_collides(d: CollisionFilter, other: CollisionFilter)
    requires
        d.group@ == 0xFFFF_FFFFu32,
        d.mask_a == 0xFFFF_FFFFu32,
        d.mask_b == 0xFFFF_FFFFu32,
    ensures
        filters_collide(d, other) == (other.group@ != 0 && other.mask_a != 0 && other.mask_b
            != 0),
{
    let (g, p, q) = (other.group@, other.mask_a, other.mask_b);
    assert((0xFFFF_FFFFu32 & g != 0) == (g != 0)) by (bit_vector);
    assert((0xFFFF_FFFFu32 & p != 0) == (p != 0)) by (bit_vector);
    assert((0xFFFF_FFFFu32 & q != 0) == (q != 0)) by (bit_vector);
}

/// Two groups with the same bits are the same value.
pub proof fn lemma_group_view_injective(a: CollisionGroup, b: CollisionGroup)
    ensures
        a@ == b@ ==> a == b,
{
}

} // verus!
