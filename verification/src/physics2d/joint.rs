use vstd::prelude::*;

verus! {

/// Kind of a 2D joint
#[derive(Debug, Clone, Copy, PartialEq, Eq, Structural)]
pub enum JointType {
    /// Distance joint
    Distance,
    /// Revolute joint
    Revolute,
    /// Prismatic joint
    Prismatic,
    /// Rope joint
    Rope,
    /// Spring joint
    Spring,
}

} // verus!
