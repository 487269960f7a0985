use vstd::prelude::*;

verus! {

/// Kind of a 3D rigid body
#[derive(Debug, Clone, Copy, PartialEq, Eq, Structural)]
pub enum RigidBodyType3D {
    /// Moved by forces
    Dynamic,
    /// Never moves
    Static,
    /// Position driven by code
    KinematicPositionBased,
    /// Velocity driven by code
    KinematicVelocityBased,
    /// Fixed: takes no part in the simulation
    Fixed,
}

impl Default for RigidBodyType3D {
    fn default() -> (r: Self)
        ensures
            r == RigidBodyType3D::Dynamic,
    {
        RigidBodyType3D::Dynamic
    }
}

impl RigidBodyType3D {
    /// Whether the body is dynamic
    pub fn is_dynamic(&self) -> (r: bool)
        ensures
            r == (*self == RigidBodyType3D::Dynamic),
    {
        matches!(self, RigidBodyType3D::Dynamic)
    }

    /// Whether the body is static
    pub fn is_static(&self) -> (r: bool)
        ensures
            r == (*self == RigidBodyType3D::Static),
    {
        matches!(self, RigidBodyType3D::Static)
    }

    /// Whether the body is kinematic (position or velocity based)
    pub fn is_kinematic(&self) -> (r: bool)
        ensures
            r == (*self == RigidBodyType3D::KinematicPositionBased || *self
                == RigidBodyType3D::KinematicVelocityBased),
    {
        matches!(
            self,
            RigidBodyType3D::KinematicPositionBased | RigidBodyType3D::KinematicVelocityBased
        )
    }

    /// Whether the body is fixed
    pub fn is_fixed(&self) -> (r: bool)
        ensures
            r == (*self == RigidBodyType3D::Fixed),
    {
        matches!(self, RigidBodyType3D::Fixed)
    }
}

/// Every body kind is exactly one of dynamic, static, kinematic or fixed.
pub proof fn lemma_body_kind_partition(t: RigidBodyType3D)
    ensures
        (t == RigidBodyType3D::Dynamic) as int + (t == RigidBodyType3D::Static) as int + (t
            == RigidBodyType3D::KinematicPositionBased || t
            == RigidBodyType3D::KinematicVelocityBased) as int + (t == RigidBodyType3D::Fixed)
            as int == 1,
{
}

/// Handle of a rigid body: an index and a generation. The index `u32::MAX`
/// marks an invalid handle.
#[derive(Debug, Clone, Copy, PartialEq, Eq, Hash, Structural)]
pub struct RigidBodyHandle {
    /// Index
    pub index: u32,
    /// Generation
    pub generation: u32,
}

impl RigidBodyHandle {
    /// Create a handle
    pub fn new(index: u32, generation: u32) -> (r: Self)
        ensures
            r.index == index,
            r.generation == generation,
    {
        RigidBodyHandle { index, generation }
    }

    /// The invalid handle
    #[allow(non_snake_case)]
    pub fn INVALID() -> (r: Self)
        ensures
            r.index == u32::MAX,
            r.generation == u32::MAX,
    {
        RigidBodyHandle { index: u32::MAX, generation: u32::MAX }
    }

    /// Whether the handle is valid
    pub fn is_valid(&self) -> (r: bool)
        ensures
            r == (self.index != u32::MAX),
    {
        self.index != u32::MAX
    }
}

impl Default for RigidBodyHandle {
    fn default() -> (r: Self)
        ensures
            r.index == u32::MAX,
            r.generation == u32::MAX,
    {
        Self::INVALID()
    }
}

} // verus!
