//! Verified core of a game engine: PBR material flags, shader permutations
//! and their cache, shader graphs (topology and GLSL/WGSL generation), and the
//! bookkeeping parts of 2D and 3D physics (collision groups and filters,
//! handles and their slots, collider indices, query filters).

pub mod pbr;
pub mod physics2d;
pub mod physics3d;
