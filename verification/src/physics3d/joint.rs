use vstd::prelude::*;

verus! {

/// Kind of a 3D joint
#[derive(Debug, Clone, Copy, PartialEq, Eq, Structural)]
pub enum JointType3D {
    /// Fixed joint
    Fixed,
    /// Revolute joint
    Revolute,
    /// Prismatic joint
    Prismatic,
    /// Ball joint
    Ball,
    /// Distance joint
    Distance,
    /// Rope joint
    Rope,
    /// Spherical joint
    Spherical,
}

/// Handle of a joint: an index and a generation. The index `u32::MAX` marks
/// an invalid handle.
#[derive(Debug, Clone, Copy, PartialEq, Eq, Hash, Structural)]
pub struct JointHandle {
    /// Index
    pub index: u32,
    /// Generation
    pub generation: u32,
}

impl JointHandle {
    /// Create a handle
    pub fn new(index: u32, generation: u32) -> (r: Self)
        ensures
            r.index == index,
            r.generation == generation,
    {
        JointHandle { index, generation }
    }

    /// The invalid handle
    #[allow(non_snake_case)]
    pub fn INVALID() -> (r: Self)
        ensures
            r.index == u32::MAX,
            r.generation == u32::MAX,
    {
        JointHandle { index: u32::MAX, generation: u32::MAX }
    }

    /// Whether the handle is valid
    pub fn is_valid(&self) -> (r: bool)
        ensures
            r == (self.index != u32::MAX),
    {
        self.index != u32::MAX
    }
}

impl Default for JointHandle {
    fn default() -> (r: Self)
        ensures
            r.index == u32::MAX,
            r.generation == u32::MAX,
    {
        Self::INVALID()
    }
}

/// How a joint motor is driven
#[derive(Debug, Clone, Copy, PartialEq, Eq, Structural)]
pub enum MotorModel {
    /// Force control
    ForceBased,
    /// Velocity control
    VelocityBased,
    /// Position control
    PositionBased,
}

impl Default for MotorModel {
    fn default() -> (r: Self)
        ensures
            r == MotorModel::ForceBased,
    {
        MotorModel::ForceBased
    }
}

/// Common part of every 3D joint: its kind, the two bodies it joins, and two
/// switches.
#[derive(Debug, Clone)]
pub struct Joint3D {
    joint_type: JointType3D,
    body_a: usize,
    body_b: usize,
    enabled: bool,
    collide_connected: bool,
}

impl Joint3D {
    /// The kind of the joint
    pub closed spec fn spec_joint_type(&self) -> JointType3D {
        self.joint_type
    }

    /// The first body
    pub closed spec fn spec_body_a(&self) -> usize {
        self.body_a
    }

    /// The second body
    pub closed spec fn spec_body_b(&self) -> usize {
        self.body_b
    }

    /// Whether the joint is enabled
    pub closed spec fn spec_enabled(&self) -> bool {
        self.enabled
    }

    /// Whether the two joined bodies collide with each other
    pub closed spec fn spec_collide_connected(&self) -> bool {
        self.collide_connected
    }

    /// Create an enabled joint whose bodies do not collide with each other
    pub fn new(joint_type: JointType3D, body_a: usize, body_b: usize) -> (r: Self)
        ensures
            r.spec_joint_type() == joint_type,
            r.spec_body_a() == body_a,
            r.spec_body_b() == body_b,
            r.spec_enabled(),
            !r.spec_collide_connected(),
    {
        Joint3D { joint_type, body_a, body_b, enabled: true, collide_connected: false }
    }

    /// The kind of the joint
    pub fn joint_type(&self) -> (r: JointType3D)
        ensures
            r == self.spec_joint_type(),
    {
        self.joint_type
    }

    /// The first body
    pub fn body_a(&self) -> (r: usize)
        ensures
            r == self.spec_body_a(),
    {
        self.body_a
    }

    /// The second body
    pub fn body_b(&self) -> (r: usize)
        ensures
            r == self.spec_body_b(),
    {
        self.body_b
    }

    /// Whether the joint is enabled
    pub fn is_enabled(&self) -> (r: bool)
        ensures
            r == self.spec_enabled(),
    {
        self.enabled
    }

    /// Enable or disable the joint; nothing else changes
    pub fn set_enabled(&mut self, enabled: bool)
        ensures
            final(self).spec_enabled() == enabled,
            final(self).spec_joint_type() == old(self).spec_joint_type(),
            final(self).spec_body_a() == old(self).spec_body_a(),
            final(self).spec_body_b() == old(self).spec_body_b(),
            final(self).spec_collide_connected() == old(self).spec_collide_connected(),
    {
        self.enabled = enabled;
    }

    /// Whether the two joined bodies collide with each other
    pub fn collide_connected(&self) -> (r: bool)
        ensures
            r == self.spec_collide_connected(),
    {
        self.collide_connected
    }

    /// Set whether the two joined bodies collide; nothing else changes
    pub fn set_collide_connected(&mut self, collide: bool)
        ensures
            final(self).spec_collide_connected() == collide,
            final(self).spec_joint_type() == old(self).spec_joint_type(),
            final(self).spec_body_a() == old(self).spec_body_a(),
            final(self).spec_body_b() == old(self).spec_body_b(),
            final(self).spec_enabled() == old(self).spec_enabled(),
    {
        self.collide_connected = collide;
    }
}

} // verus!
