use vstd::prelude::*;

verus! {

/// Kind of a collider
#[derive(Debug, Clone, Copy, PartialEq, Eq, Structural)]
pub enum ColliderType {
    /// Solid: produces a collision response
    Solid,
    /// Sensor: detects contact only
    Sensor,
}

impl Default for ColliderType {
    fn default() -> (r: Self)
        ensures
            r == ColliderType::Solid,
    {
        ColliderType::Solid
    }
}

/// Handle of a collider: an index and a generation. The index `u32::MAX`
/// marks an invalid handle.
#[derive(Debug, Clone, Copy, PartialEq, Eq, Hash, Structural)]
pub struct ColliderHandle {
    /// Index
    pub index: u32,
    /// Generation
    pub generation: u32,
}

impl ColliderHandle {
    /// Create a handle
    pub fn new(index: u32, generation: u32) -> (r: Self)
        ensures
            r.index == index,
            r.generation == generation,
    {
        ColliderHandle { index, generation }
    }

    /// The invalid handle
    #[allow(non_snake_case)]
    pub fn INVALID() -> (r: Self)
        ensures
            r.index == u32::MAX,
            r.generation == u32::MAX,
    {
        ColliderHandle { index: u32::MAX, generation: u32::MAX }
    }

    /// Whether the handle is valid
    pub fn is_valid(&self) -> (r: bool)
        ensures
            r == (self.index != u32::MAX),
    {
        self.index != u32::MAX
    }
}

impl Default for ColliderHandle {
    fn default() -> (r: Self)
        ensures
            r.index == u32::MAX,
            r.generation == u32::MAX,
    {
        Self::INVALID()
    }
}

} // verus!
