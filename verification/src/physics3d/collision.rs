use vstd::prelude::*;
use crate::physics3d::collider::ColliderHandle;

verus! {

/// Contact event between two colliders
#[derive(Debug, Clone, Copy, PartialEq, Eq, Structural)]
pub enum ContactEvent {
    /// Contact started
    Started(ColliderHandle, ColliderHandle),
    /// Contact stopped
    Stopped(ColliderHandle, ColliderHandle),
}

impl ContactEvent {
    /// The first collider
    pub fn collider_a(&self) -> (r: ColliderHandle)
        ensures
            r == (match *self {
                ContactEvent::Started(a, _) => a,
                ContactEvent::Stopped(a, _) => a,
            }),
    {
        match self {
            ContactEvent::Started(a, _) => *a,
            ContactEvent::Stopped(a, _) => *a,
        }
    }

    /// The second collider
    pub fn collider_b(&self) -> (r: ColliderHandle)
        ensures
            r == (match *self {
                ContactEvent::Started(_, b) => b,
                ContactEvent::Stopped(_, b) => b,
            }),
    {
        match self {
            ContactEvent::Started(_, b) => *b,
            ContactEvent::Stopped(_, b) => *b,
        }
    }

    /// Whether the contact started
    pub fn is_started(&self) -> (r: bool)
        ensures
            r == (*self is Started),
    {
        matches!(self, ContactEvent::Started(_, _))
    }

    /// Whether the contact stopped
    pub fn is_stopped(&self) -> (r: bool)
        ensures
            r == (*self is Stopped),
    {
        matches!(self, ContactEvent::Stopped(_, _))
    }
}

/// Intersection event between two colliders (at least one a sensor)
#[derive(Debug, Clone, Copy, PartialEq, Eq, Structural)]
pub enum IntersectionEvent {
    /// Intersection started
    Started(ColliderHandle, ColliderHandle),
    /// Intersection stopped
    Stopped(ColliderHandle, ColliderHandle),
}

impl IntersectionEvent {
    /// The first collider
    pub fn collider_a(&self) -> (r: ColliderHandle)
        ensures
            r == (match *self {
                IntersectionEvent::Started(a, _) => a,
                IntersectionEvent::Stopped(a, _) => a,
            }),
    {
        match self {
            IntersectionEvent::Started(a, _) => *a,
            IntersectionEvent::Stopped(a, _) => *a,
        }
    }

    /// The second collider
    pub fn collider_b(&self) -> (r: ColliderHandle)
        ensures
            r == (match *self {
                IntersectionEvent::Started(_, b) => b,
                IntersectionEvent::Stopped(_, b) => b,
            }),
    {
        match self {
            IntersectionEvent::Started(_, b) => *b,
            IntersectionEvent::Stopped(_, b) => *b,
        }
    }
}

/// A 3D collision group: a 32-bit mask whose view is the raw mask.
#[derive(Debug, Clone, Copy, PartialEq, Eq, Structural)]
pub struct CollisionGroup3D(u32);

impl View for CollisionGroup3D {
    type V = u32;

    closed spec fn view(&self) -> u32 {
        self.0
    }
}

impl CollisionGroup3D {
    /// Create a group from raw bits
    pub fn new(bits: u32) -> (r: Self)
        ensures
            r@ == bits,
    {
        CollisionGroup3D(bits)
    }

    /// The empty group
    pub fn none() -> (r: Self)
        ensures
            r@ == 0,
    {
        CollisionGroup3D(0)
    }

    /// The group with every bit set
    pub fn all() -> (r: Self)
        ensures
            r@ == 0xFFFF_FFFFu32,
    {
        CollisionGroup3D(0xFFFF_FFFF)
    }

    /// The raw bits
    pub fn bits(&self) -> (r: u32)
        ensures
            r == self@,
    {
        self.0
    }

    /// Set one bit (`bit` must be a valid shift amount)
    pub fn with_bit(self, bit: u32) -> (r: Self)
        requires
            bit < 32,
        ensures
            r@ == self@ | (1u32 << bit),
    {
        CollisionGroup3D(self.0 | (1u32 << bit))
    }

    /// Whether one bit is set (`bit` must be a valid shift amount)
    pub fn contains(&self, bit: u32) -> (r: bool)
        requires
            bit < 32,
        ensures
            r == (self@ & (1u32 << bit) != 0),
    {
        (self.0 & (1u32 << bit)) != 0
    }

    /// Whether the two groups share a bit
    pub fn intersects(&self, other: &CollisionGroup3D) -> (r: bool)
        ensures
            r == (self@ & other@ != 0),
    {
        (self.0 & other.0) != 0
    }
}

impl Default for CollisionGroup3D {
    fn default() -> (r: Self)
        ensures
            r@ == 0xFFFF_FFFFu32,
    {
        Self::all()
    }
}

/// Collision filtering rule: a group and two masks.
#[derive(Debug)]
pub struct CollisionFilter3D {
    /// Group
    pub group: CollisionGroup3D,
    /// Mask A
    pub mask_a: u32,
    /// Mask B
    pub mask_b: u32,
}

/// When two filters let their bodies collide: the groups intersect, A's first
/// mask meets B's second mask and A's second mask meets B's first mask.
pub open spec fn filters_collide_3d(a: CollisionFilter3D, b: CollisionFilter3D) -> bool {
    &&& a.group@ & b.group@ != 0
    &&& a.mask_a & b.mask_b != 0
    &&& a.mask_b & b.mask_a != 0
}

impl CollisionFilter3D {
    /// Whether the two filters let their bodies collide
    pub fn should_collide(&self, other: &CollisionFilter3D) -> (r: bool)
        ensures
            r == filters_collide_3d(*self, *other),
    {
        if !self.group.intersects(&other.group) {
            return false;
        }
        if (self.mask_a & other.mask_b) == 0 {
            return false;
        }
        if (self.mask_b & other.mask_a) == 0 {
            return false;
        }
        true
    }
}

impl Clone for CollisionFilter3D {
    fn clone(&self) -> (r: Self)
        ensures
            r == *self,
    {
        CollisionFilter3D { group: self.group, mask_a: self.mask_a, mask_b: self.mask_b }
    }
}

impl Default for CollisionFilter3D {
    fn default() -> (r: Self)
        ensures
            r.group@ == 0xFFFF_FFFFu32,
            r.mask_a == 0xFFFF_FFFFu32,
            r.mask_b == 0xFFFF_FFFFu32,
    {
        CollisionFilter3D {
            group: CollisionGroup3D::all(),
            mask_a: 0xFFFF_FFFF,
            mask_b: 0xFFFF_FFFF,
        }
    }
}

/// Filtering is symmetric: A collides with B exactly when B collides with A.
pub proof fn lemma_should_collide_3d_symmetric(a: CollisionFilter3D, b: CollisionFilter3D)
    ensures
        filters_collide_3d(a, b) == filters_collide_3d(b, a),
{
    let (ga, gb) = (a.group@, b.group@);
    assert((ga & gb != 0) == (gb & ga != 0)) by (bit_vector);
    let (p, q, r, s) = (a.mask_a, a.mask_b, b.mask_a, b.mask_b);
    assert((p & s != 0) == (s & p != 0)) by (bit_vector);
    assert((q & r != 0) == (r & q != 0)) by (bit_vector);
}

/// Setting a bit makes the group contain it.
pub proof fn lemma_with_bit_contains_3d(bits: u32, bit: u32)
    requires
        bit < 32,
    ensures
        (bits | (1u32 << bit)) & (1u32 << bit) != 0,
{
    assert((bits | (1u32 << bit)) & (1u32 << bit) != 0) by (bit_vector)
        requires
            bit < 32,
    ;
}

/// Two groups with the same bits are the same value.
pub proof fn lemma_group3d_view_injective(a: CollisionGroup3D, b: CollisionGroup3D)
    ensures
        a@ == b@ ==> a == b,
{
}

} // verus!
