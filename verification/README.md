# engine

Verified core of a small game engine, written in Verus.

- `src/` is the library, verified by Verus:
  - `pbr`: material flags and the features that raise them, shader
    permutation keys (hash, description) and the shader cache (lookup,
    eviction, reference counts), HDR formats and framebuffer layouts, IBL
    textures, shader-graph topology (nodes, edges, topological order) and
    GLSL/WGSL generation.
  - `physics2d`: collision groups and filters, the collider indices of a
    rigid body and the index bookkeeping of a world (body and collider
    removal, pair pruning), body and joint kinds, query filters.
  - `physics3d`: collision groups and filters, handles, the generation slots
    that hand handles out and recognise stale ones, contact events, joints and
    query filters.
- `tests/` exercises the library on concrete values.
- `app/` holds what the library does not: serde forms of graphs and
  materials, floating-point payloads (node constants, material strengths,
  environment intensity) and statistics that need floating point.

Floating-point constants reach the shader-code generator as their `Display`
text; the generator itself, down to the exact characters it emits, is
specified and verified.
