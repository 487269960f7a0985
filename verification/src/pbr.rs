//! Physically based rendering: material flags and features, shader
//! permutations, HDR formats and framebuffer layouts, IBL textures,
//! shader-graph topology and shader code generation.

pub mod flags;
pub mod permutation;
pub mod graph;
pub mod codegen;
pub mod hdr;
pub mod ibl;
pub mod material;
