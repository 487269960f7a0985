//! 3D physics: collision groups and filters, entity, body, collider and joint
//! handles and the slots that hand them out, body and joint kinds, contact
//! events and query filters.

pub mod collider;
pub mod collision;
pub mod joint;
pub mod query;
pub mod rigidbody;
pub mod world;

use vstd::prelude::*;

verus! {

/// Collision groups: the groups a body is in and the groups it may hit.
#[derive(Debug, Clone, Copy, PartialEq, Eq, Structural)]
pub struct CollisionGroups {
    /// Membership mask
    pub memberships: u32,
    /// Filter mask
    pub filter: u32,
}

/// Two bodies may collide when each one's filter meets the other's memberships.
pub open spec fn groups_can_collide(a: CollisionGroups, b: CollisionGroups) -> bool {
    a.filter & b.memberships != 0 && b.filter & a.memberships != 0
}

impl CollisionGroups {
    /// Create collision groups
    pub fn new(memberships: u32, filter: u32) -> (r: Self)
        ensures
            r.memberships == memberships,
            r.filter == filter,
    {
        CollisionGroups { memberships, filter }
    }

    /// Every group
    #[allow(non_snake_case)]
    pub fn ALL() -> (r: Self)
        ensures
            r.memberships == 0xFFFF_FFFFu32,
            r.filter == 0xFFFF_FFFFu32,
    {
        CollisionGroups { memberships: 0xFFFF_FFFF, filter: 0xFFFF_FFFF }
    }

    /// No group
    #[allow(non_snake_case)]
    pub fn NONE() -> (r: Self)
        ensures
            r.memberships == 0,
            r.filter == 0,
    {
        CollisionGroups { memberships: 0, filter: 0 }
    }

    /// Member of group 0, colliding with the low sixteen groups
    #[allow(non_snake_case)]
    pub fn DEFAULT() -> (r: Self)
        ensures
            r.memberships == 0x0001,
            r.filter == 0xFFFF,
    {
        CollisionGroups { memberships: 0x0001, filter: 0xFFFF }
    }

    /// Whether the two may collide
    pub fn can_collide_with(&self, other: &CollisionGroups) -> (r: bool)
        ensures
            r == groups_can_collide(*self, *other),
    {
        (self.filter & other.memberships) != 0 && (other.filter & self.memberships) != 0
    }
}

impl Default for CollisionGroups {
    fn default() -> (r: Self)
        ensures
            r.memberships == 0xFFFF_FFFFu32,
            r.filter == 0xFFFF_FFFFu32,
    {
        Self::ALL()
    }
}

/// Whether two groups may collide does not depend on their order.
pub proof fn lemma_can_collide_symmetric(a: CollisionGroups, b: CollisionGroups)
    ensures
        groups_can_collide(a, b) == groups_can_collide(b, a),
{
}

/// Two bodies collide exactly when the first one's filter meets the second
/// one's memberships and the second one's filter meets the first one's
/// memberships: these two tests suffice, and how a body's filter relates to
/// its own memberships plays no part.
pub proof fn lemma_can_collide_fields(a: CollisionGroups, b: CollisionGroups)
    ensures
        groups_can_collide(a, b) <==> (a.filter & b.memberships != 0 && b.filter
            & a.memberships != 0),
{
}

/// A body alone in group `i` that hits group `j` and a body alone in group
/// `j` that hits group `i` always collide, whatever the two groups are.
pub proof fn lemma_crossed_single_groups_collide(i: u32, j: u32)
    requires
        i < 32,
        j < 32,
    ensures
        groups_can_collide(
            CollisionGroups { memberships: 1u32 << i, filter: 1u32 << j },
            CollisionGroups { memberships: 1u32 << j, filter: 1u32 << i },
        ),
{
    assert((1u32 << j) & (1u32 << j) != 0) by (bit_vector)
        requires
            j < 32,
    ;
    assert((1u32 << i) & (1u32 << i) != 0) by (bit_vector)
        requires
            i < 32,
    ;
}

/// Rule for combining two material coefficients
#[derive(Debug, Clone, Copy, PartialEq, Eq, Structural)]
pub enum CombineRule {
    /// Average
    Average,
    /// Minimum
    Min,
    /// Maximum
    Max,
    /// Product
    Multiply,
}

impl Default for CombineRule {
    fn default() -> (r: Self)
        ensures
            r == CombineRule::Average,
    {
        CombineRule::Average
    }
}

/// Coordinate axis
#[derive(Debug, Clone, Copy, PartialEq, Eq, Structural)]
pub enum Axis {
    /// X axis
    X,
    /// Y axis
    Y,
    /// Z axis
    Z,
}

impl Default for Axis {
    fn default() -> (r: Self)
        ensures
            r == Axis::X,
    {
        Axis::X
    }
}

/// Handle of a physics entity: an index and a generation. The index
/// `u32::MAX` marks an invalid handle.
#[derive(Debug, Clone, Copy, PartialEq, Eq, Hash, Structural)]
pub struct EntityHandle {
    /// Index
    pub index: u32,
    /// Generation (to detect stale handles)
    pub generation: u32,
}

impl EntityHandle {
    /// Create a handle
    pub fn new(index: u32, generation: u32) -> (r: Self)
        ensures
            r.index == index,
            r.generation == generation,
    {
        EntityHandle { index, generation }
    }

    /// The invalid handle
    #[allow(non_snake_case)]
    pub fn INVALID() -> (r: Self)
        ensures
            r.index == u32::MAX,
            r.generation == u32::MAX,
    {
        EntityHandle { index: u32::MAX, generation: u32::MAX }
    }

    /// Whether the handle is valid
    pub fn is_valid(&self) -> (r: bool)
        ensures
            r == (self.index != u32::MAX),
    {
        self.index != u32::MAX
    }
}

impl Default for EntityHandle {
    fn default() -> (r: Self)
        ensures
            r.index == u32::MAX,
            r.generation == u32::MAX,
    {
        Self::INVALID()
    }
}

} // verus!
