use vstd::prelude::*;
use std::collections::HashMap;
use vstd::std_specs::hash::{spec_hash_map_iter, spec_keys_iter};
use vstd::std_specs::iter::IteratorSpec;
use vstd::string::StringExecFns;
use vstd::string::StringSliceAdditionalSpecFns;
use crate::pbr::flags::{PbrMaterialFlags, texture_map_bits};

verus! {

/// FNV-1a 64-bit offset basis
pub const FNV_OFFSET: u64 = 14695981039346656037;

/// FNV-1a 64-bit prime
pub const FNV_PRIME: u64 = 1099511628211;

/// One FNV-1a step: xor the value in, then multiply by the prime modulo 2^64.
pub open spec fn fnv_step(h: u64, v: u64) -> u64 {
    (((h ^ v) as nat * FNV_PRIME as nat) % 0x1_0000_0000_0000_0000) as u64
}

/// FNV-1a over a sequence of bytes, starting from `h`.
pub open spec fn fnv_bytes(h: u64, bytes: Seq<u8>) -> u64
    decreases bytes.len(),
{
    if bytes.len() == 0 {
        h
    } else {
        fnv_step(fnv_bytes(h, bytes.drop_last()), bytes.last() as u64)
    }
}

fn fnv_mix(h: u64, v: u64) -> (r: u64)
    ensures
        r == fnv_step(h, v),
{
    (h ^ v).wrapping_mul(FNV_PRIME)
}

/// Shader permutation key that uniquely identifies a shader variant
///
/// Combines material flags, alpha mode, and other feature toggles
/// into a single hashable key for cache lookup.
#[derive(Clone, Copy, Debug, PartialEq, Eq, Hash, Structural)]
pub struct ShaderPermutationKey {
    /// Material feature flags
    pub flags: u32,
    /// Alpha mode (0 = Opaque, 1 = Mask, 2 = Blend)
    pub alpha_mode: u8,
    /// Number of lights supported
    pub light_count: u8,
    /// Whether shadow mapping is enabled
    pub shadows_enabled: bool,
    /// Whether IBL is enabled
    pub ibl_enabled: bool,
    /// Tone mapping mode (0 = None, 1 = ACES, 2 = Reinhard, 3 = Filmic)
    pub tonemap_mode: u8,
    /// Number of cascades for shadow mapping (0 = no CSM)
    pub cascade_count: u8,
}

/// The default key: no flags, opaque, one light, no shadows, no IBL, ACES
/// tone mapping, no cascades.
pub open spec fn default_key() -> ShaderPermutationKey {
    ShaderPermutationKey {
        flags: 0,
        alpha_mode: 0,
        light_count: 1,
        shadows_enabled: false,
        ibl_enabled: false,
        tonemap_mode: 1,
        cascade_count: 0,
    }
}

/// A boolean as the number hashed for it.
pub open spec fn bool_word(b: bool) -> u64 {
    if b {
        1
    } else {
        0
    }
}

/// The FNV-1a hash of a key: its seven fields in declaration order.
pub open spec fn key_hash(k: ShaderPermutationKey) -> u64 {
    let h = fnv_step(FNV_OFFSET, k.flags as u64);
    let h = fnv_step(h, k.alpha_mode as u64);
    let h = fnv_step(h, k.light_count as u64);
    let h = fnv_step(h, bool_word(k.shadows_enabled));
    let h = fnv_step(h, bool_word(k.ibl_enabled));
    let h = fnv_step(h, k.tonemap_mode as u64);
    fnv_step(h, k.cascade_count as u64)
}

/// Whether a key uses image-based lighting: the IBL switch or the IBL flag.
pub open spec fn key_uses_ibl(k: ShaderPermutationKey) -> bool {
    k.ibl_enabled || k.flags & (1u32 << 7u32) != 0
}

impl Default for ShaderPermutationKey {
    fn default() -> (r: Self)
        ensures
            r == default_key(),
    {
        ShaderPermutationKey {
            flags: 0,
            alpha_mode: 0,
            light_count: 1,
            shadows_enabled: false,
            ibl_enabled: false,
            tonemap_mode: 1,
            cascade_count: 0,
        }
    }
}

impl ShaderPermutationKey {
    /// Create the default key
    pub fn new() -> (r: Self)
        ensures
            r == default_key(),
    {
        Self::default()
    }

    /// The default key with the given material flags
    pub fn from_flags(flags: PbrMaterialFlags) -> (r: Self)
        ensures
            r == (ShaderPermutationKey { flags: flags@, ..default_key() }),
    {
        let mut k = Self::default();
        k.flags = flags.bits();
        k
    }

    /// Set the material flags
    pub fn with_flags(self, flags: PbrMaterialFlags) -> (r: Self)
        ensures
            r == (ShaderPermutationKey { flags: flags@, ..self }),
    {
        let mut k = self;
        k.flags = flags.bits();
        k
    }

    /// Set the alpha mode
    pub fn with_alpha_mode(self, alpha_mode: u8) -> (r: Self)
        ensures
            r == (ShaderPermutationKey { alpha_mode, ..self }),
    {
        let mut k = self;
        k.alpha_mode = alpha_mode;
        k
    }

    /// Set the light count
    pub fn with_light_count(self, count: u8) -> (r: Self)
        ensures
            r == (ShaderPermutationKey { light_count: count, ..self }),
    {
        let mut k = self;
        k.light_count = count;
        k
    }

    /// Enable or disable shadows
    pub fn with_shadows(self, enabled: bool) -> (r: Self)
        ensures
            r == (ShaderPermutationKey { shadows_enabled: enabled, ..self }),
    {
        let mut k = self;
        k.shadows_enabled = enabled;
        k
    }

    /// Enable or disable IBL
    pub fn with_ibl(self, enabled: bool) -> (r: Self)
        ensures
            r == (ShaderPermutationKey { ibl_enabled: enabled, ..self }),
    {
        let mut k = self;
        k.ibl_enabled = enabled;
        k
    }

    /// Set the tone mapping mode
    pub fn with_tonemap(self, mode: u8) -> (r: Self)
        ensures
            r == (ShaderPermutationKey { tonemap_mode: mode, ..self }),
    {
        let mut k = self;
        k.tonemap_mode = mode;
        k
    }

    /// Set the cascade count for CSM
    pub fn with_cascades(self, count: u8) -> (r: Self)
        ensures
            r == (ShaderPermutationKey { cascade_count: count, ..self }),
    {
        let mut k = self;
        k.cascade_count = count;
        k
    }

    /// Compute the 64-bit FNV-1a hash of this key
    pub fn hash(&self) -> (r: u64)
        ensures
            r == key_hash(*self),
    {
        let mut h = FNV_OFFSET;
        h = fnv_mix(h, self.flags as u64);
        h = fnv_mix(h, self.alpha_mode as u64);
        h = fnv_mix(h, self.light_count as u64);
        h = fnv_mix(h, if self.shadows_enabled { 1 } else { 0 });
        h = fnv_mix(h, if self.ibl_enabled { 1 } else { 0 });
        h = fnv_mix(h, self.tonemap_mode as u64);
        h = fnv_mix(h, self.cascade_count as u64);
        h
    }

    /// Whether this permutation uses any texture map
    pub fn has_textures(&self) -> (r: bool)
        ensures
            r == (self.flags & texture_map_bits() != 0),
    {
        PbrMaterialFlags::from_bits(self.flags).has_any_texture()
    }

    /// Whether this permutation uses IBL
    pub fn uses_ibl(&self) -> (r: bool)
        ensures
            r == key_uses_ibl(*self),
    {
        self.ibl_enabled || PbrMaterialFlags::from_bits(self.flags).contains(
            PbrMaterialFlags::USE_IBL(),
        )
    }

    /// Whether this permutation uses shadows
    pub fn uses_shadows(&self) -> (r: bool)
        ensures
            r == self.shadows_enabled,
    {
        self.shadows_enabled
    }

    /// The material flags
    pub fn flags(&self) -> (r: PbrMaterialFlags)
        ensures
            r@ == self.flags,
    {
        PbrMaterialFlags::from_bits(self.flags)
    }
}

/// The decimal digit `d` (below ten) as text.
pub open spec fn digit_text(d: nat) -> Seq<char> {
    if d == 0 {
        "0"@
    } else if d == 1 {
        "1"@
    } else if d == 2 {
        "2"@
    } else if d == 3 {
        "3"@
    } else if d == 4 {
        "4"@
    } else if d == 5 {
        "5"@
    } else if d == 6 {
        "6"@
    } else if d == 7 {
        "7"@
    } else if d == 8 {
        "8"@
    } else {
        "9"@
    }
}

/// The decimal text of a natural number, without leading zeros.
pub open spec fn decimal_text(n: nat) -> Seq<char>
    decreases n,
{
    if n < 10 {
        digit_text(n)
    } else {
        decimal_text(n / 10) + digit_text(n % 10)
    }
}

pub(crate) fn digit_str(d: u8) -> (r: &'static str)
    requires
        d < 10,
    ensures
        r@ == digit_text(d as nat),
{
    if d == 0 {
        "0"
    } else if d == 1 {
        "1"
    } else if d == 2 {
        "2"
    } else if d == 3 {
        "3"
    } else if d == 4 {
        "4"
    } else if d == 5 {
        "5"
    } else if d == 6 {
        "6"
    } else if d == 7 {
        "7"
    } else if d == 8 {
        "8"
    } else {
        "9"
    }
}

/// Append the decimal text of `n` to `out`.
fn append_decimal(out: &mut String, n: u8)
    ensures
        final(out)@ == old(out)@ + decimal_text(n as nat),
{
    if n >= 100 {
        out.append(digit_str(n / 100));
        out.append(digit_str((n / 10) % 10));
        out.append(digit_str(n % 10));
        let ghost t = (n / 10) as nat;
        assert(t >= 10 && t / 10 == n / 100 && t % 10 == (n / 10) % 10 && t / 10 < 10);
        assert(decimal_text(t) == decimal_text(t / 10) + digit_text(t % 10));
        assert(decimal_text(n as nat) == decimal_text(t) + digit_text((n % 10) as nat));
    } else if n >= 10 {
        out.append(digit_str(n / 10));
        out.append(digit_str(n % 10));
        assert((n / 10) < 10);
        assert(decimal_text((n / 10) as nat) == digit_text((n / 10) as nat));
        assert(decimal_text(n as nat) == decimal_text((n / 10) as nat) + digit_text(
            (n % 10) as nat,
        ));
    } else {
        out.append(digit_str(n));
    }
}

/// Parts joined by a vertical bar.
pub open spec fn join_bar(parts: Seq<Seq<char>>) -> Seq<char>
    decreases parts.len(),
{
    if parts.len() == 0 {
        Seq::empty()
    } else if parts.len() == 1 {
        parts[0]
    } else {
        join_bar(parts.drop_last()) + "|"@ + parts.last()
    }
}

/// The name of an alpha mode.
pub open spec fn alpha_text(m: u8) -> Seq<char> {
    if m == 0 {
        "Opaque"@
    } else if m == 1 {
        "Mask"@
    } else if m == 2 {
        "Blend"@
    } else {
        "UnknownAlpha"@
    }
}

/// The texture-map parts of a description, in flag order.
pub open spec fn texture_parts(f: u32) -> Seq<Seq<char>> {
    let p = Seq::<Seq<char>>::empty();
    let p = if f & (1u32 << 0u32) != 0 { p.push("AlbedoMap"@) } else { p };
    let p = if f & (1u32 << 1u32) != 0 { p.push("NormalMap"@) } else { p };
    let p = if f & (1u32 << 2u32) != 0 { p.push("MetallicMap"@) } else { p };
    let p = if f & (1u32 << 3u32) != 0 { p.push("RoughnessMap"@) } else { p };
    let p = if f & (1u32 << 4u32) != 0 { p.push("AoMap"@) } else { p };
    let p = if f & (1u32 << 5u32) != 0 { p.push("EmissiveMap"@) } else { p };
    if f & (1u32 << 6u32) != 0 { p.push("HeightMap"@) } else { p }
}

/// The name of a tone mapping mode, when it is one of the four known ones.
pub open spec fn tonemap_text(m: u8) -> Option<Seq<char>> {
    if m == 0 {
        Some("TonemapNone"@)
    } else if m == 1 {
        Some("TonemapACES"@)
    } else if m == 2 {
        Some("TonemapReinhard"@)
    } else if m == 3 {
        Some("TonemapFilmic"@)
    } else {
        None
    }
}

/// The parts of a key's description, in order: the texture maps present, the
/// alpha mode, the light count, the cascade count when shadows are on, IBL
/// when used, and the tone mapper when it is one of the four known ones.
pub open spec fn describe_parts(k: ShaderPermutationKey) -> Seq<Seq<char>> {
    let p = texture_parts(k.flags);
    let p = p.push(alpha_text(k.alpha_mode));
    let p = p.push("Lights:"@ + decimal_text(k.light_count as nat));
    let p = if k.shadows_enabled { p.push("CSM:"@ + decimal_text(k.cascade_count as nat)) } else { p };
    let p = if key_uses_ibl(k) { p.push("IBL"@) } else { p };
    match tonemap_text(k.tonemap_mode) {
        Some(t) => p.push(t),
        None => p,
    }
}

/// The human-readable description of a key.
pub open spec fn describe_text(k: ShaderPermutationKey) -> Seq<char> {
    join_bar(describe_parts(k))
}

/// Append one more part to a bar-joined text.
fn push_part(out: &mut String, first: bool, Ghost(parts): Ghost<Seq<Seq<char>>>, part: &str)
    requires
        old(out)@ == join_bar(parts),
        first == (parts.len() == 0),
    ensures
        final(out)@ == join_bar(parts.push(part@)),
{
    assert(parts.push(part@).drop_last() == parts);
    if first {
        assert(old(out)@ == Seq::<char>::empty());
        out.append(part);
        assert(final(out)@ == part@);
    } else {
        out.append("|");
        out.append(part);
        assert(final(out)@ == join_bar(parts) + "|"@ + part@);
    }
}

/// Write the texture-map parts of a description.
fn push_texture_parts(out: &mut String, f: u32) -> (first: bool)
    requires
        old(out)@ == Seq::<char>::empty(),
    ensures
        final(out)@ == join_bar(texture_parts(f)),
        first == (texture_parts(f).len() == 0),
{
    let ghost mut parts = Seq::<Seq<char>>::empty();
    let mut first = true;
    if f & (1u32 << 0u32) != 0 {
        push_part(out, first, Ghost(parts), "AlbedoMap");
        proof { parts = parts.push("AlbedoMap"@); }
        first = false;
    }
    if f & (1u32 << 1u32) != 0 {
        push_part(out, first, Ghost(parts), "NormalMap");
        proof { parts = parts.push("NormalMap"@); }
        first = false;
    }
    if f & (1u32 << 2u32) != 0 {
        push_part(out, first, Ghost(parts), "MetallicMap");
        proof { parts = parts.push("MetallicMap"@); }
        first = false;
    }
    if f & (1u32 << 3u32) != 0 {
        push_part(out, first, Ghost(parts), "RoughnessMap");
        proof { parts = parts.push("RoughnessMap"@); }
        first = false;
    }
    if f & (1u32 << 4u32) != 0 {
        push_part(out, first, Ghost(parts), "AoMap");
        proof { parts = parts.push("AoMap"@); }
        first = false;
    }
    if f & (1u32 << 5u32) != 0 {
        push_part(out, first, Ghost(parts), "EmissiveMap");
        proof { parts = parts.push("EmissiveMap"@); }
        first = false;
    }
    if f & (1u32 << 6u32) != 0 {
        push_part(out, first, Ghost(parts), "HeightMap");
        proof { parts = parts.push("HeightMap"@); }
        first = false;
    }
    assert(parts == texture_parts(f));
    first
}

impl ShaderPermutationKey {
    /// A human-readable description of this permutation: its parts joined by `|`
    pub fn describe(&self) -> (r: String)
        ensures
            r@ == describe_text(*self),
    {
        let mut out = String::new();
        let first = push_texture_parts(&mut out, self.flags);
        let ghost mut parts = texture_parts(self.flags);
        let alpha: &str = if self.alpha_mode == 0 {
            "Opaque"
        } else if self.alpha_mode == 1 {
            "Mask"
        } else if self.alpha_mode == 2 {
            "Blend"
        } else {
            "UnknownAlpha"
        };
        push_part(&mut out, first, Ghost(parts), alpha);
        proof { parts = parts.push(alpha_text(self.alpha_mode)); }
        let mut lights = String::from_str("Lights:");
        append_decimal(&mut lights, self.light_count);
        push_part(&mut out, false, Ghost(parts), lights.as_str());
        proof { parts = parts.push("Lights:"@ + decimal_text(self.light_count as nat)); }
        if self.shadows_enabled {
            let mut csm = String::from_str("CSM:");
            append_decimal(&mut csm, self.cascade_count);
            push_part(&mut out, false, Ghost(parts), csm.as_str());
            proof { parts = parts.push("CSM:"@ + decimal_text(self.cascade_count as nat)); }
        }
        if self.uses_ibl() {
            push_part(&mut out, false, Ghost(parts), "IBL");
            proof { parts = parts.push("IBL"@); }
        }
        let tone: Option<&str> = if self.tonemap_mode == 0 {
            Some("TonemapNone")
        } else if self.tonemap_mode == 1 {
            Some("TonemapACES")
        } else if self.tonemap_mode == 2 {
            Some("TonemapReinhard")
        } else if self.tonemap_mode == 3 {
            Some("TonemapFilmic")
        } else {
            None
        };
        match tone {
            Some(t) => {
                push_part(&mut out, false, Ghost(parts), t);
                proof { parts = parts.push(t@); }
            },
            None => {},
        }
        assert(parts == describe_parts(*self));
        out
    }
}

/// The hash of a shader's sources: FNV-1a over the vertex bytes, then the
/// fragment bytes.
pub open spec fn source_hash(vertex: Seq<u8>, fragment: Seq<u8>) -> u64 {
    fnv_bytes(fnv_bytes(FNV_OFFSET, vertex), fragment)
}

/// Cached shader program data
#[derive(Clone, Debug)]
pub struct CachedShader {
    /// The permutation key this shader was compiled for
    pub key: ShaderPermutationKey,
    /// Compiled vertex shader source (or binary)
    pub vertex_source: String,
    /// Compiled fragment shader source (or binary)
    pub fragment_source: String,
    /// Hash of the shader source for cache validation
    pub source_hash: u64,
    /// Reference count for cache management
    pub ref_count: u32,
}

/// Continue an FNV-1a hash over the bytes of a string.
fn fnv_str(h: u64, s: &str) -> (r: u64)
    ensures
        r == fnv_bytes(h, s.spec_bytes()),
{
    let bytes = s.as_bytes();
    let n = bytes.len();
    let mut hash = h;
    let mut i: usize = 0;
    while i < n
        invariant
            n == bytes@.len(),
            bytes@ == s.spec_bytes(),
            i <= n,
            hash == fnv_bytes(h, bytes@.take(i as int)),
        decreases n - i,
    {
        assert(bytes@.take(i + 1).drop_last() == bytes@.take(i as int));
        hash = fnv_mix(hash, bytes[i] as u64);
        i += 1;
    }
    assert(bytes@.take(n as int) == bytes@);
    hash
}

impl CachedShader {
    /// Create a cache entry with one reference
    pub fn new(key: ShaderPermutationKey, vertex: &str, fragment: &str) -> (r: Self)
        ensures
            r.key == key,
            r.vertex_source@ == vertex@,
            r.fragment_source@ == fragment@,
            r.source_hash == source_hash(vertex.spec_bytes(), fragment.spec_bytes()),
            r.ref_count == 1,
    {
        let source_hash = Self::compute_hash(vertex, fragment);
        CachedShader {
            key,
            vertex_source: String::from_str(vertex),
            fragment_source: String::from_str(fragment),
            source_hash,
            ref_count: 1,
        }
    }

    /// Hash of the shader sources
    fn compute_hash(vertex: &str, fragment: &str) -> (r: u64)
        ensures
            r == source_hash(vertex.spec_bytes(), fragment.spec_bytes()),
    {
        let h = fnv_str(FNV_OFFSET, vertex);
        fnv_str(h, fragment)
    }

    /// Increment the reference count (which must not be at its maximum)
    pub fn add_ref(&mut self)
        requires
            old(self).ref_count < u32::MAX,
        ensures
            *final(self) == (CachedShader { ref_count: (old(self).ref_count + 1) as u32, ..*old(self) }),
    {
        self.ref_count = self.ref_count + 1;
    }

    /// Decrement the reference count, not below zero; true when it is zero afterwards
    pub fn release(&mut self) -> (r: bool)
        ensures
            *final(self) == (CachedShader {
                ref_count: if old(self).ref_count > 0 { (old(self).ref_count - 1) as u32 } else { 0 },
                ..*old(self)
            }),
            r == (final(self).ref_count == 0),
    {
        if self.ref_count > 0 {
            self.ref_count = self.ref_count - 1;
        }
        self.ref_count == 0
    }
}

/// The key of an entry with the lowest reference count, or `None` for an
/// empty map. Which of several lowest entries comes back is left open.
fn lowest_ref_count_key(m: &HashMap<u64, CachedShader>) -> (r: Option<u64>)
    ensures
        r is None <==> m@.dom().len() == 0,
        r matches Some(k) ==> m@.contains_key(k) && forall|j: u64|
            m@.contains_key(j) ==> m@[k].ref_count <= #[trigger] m@[j].ref_count,
{
    broadcast use vstd::std_specs::hash::group_hash_axioms;
    let mut best: Option<(u64, u32)> = None;
    for entry in it: m.iter()
        invariant
            it.seq() == spec_hash_map_iter(m).remaining(),
            best is None <==> it.index() == 0,
            best matches Some(b) ==> m@.contains_key(b.0) && m@[b.0].ref_count == b.1,
            best matches Some(b) ==> forall|j: int|
                0 <= j < it.index() ==> b.1 <= (#[trigger] it.seq()[j]).1.ref_count,
    {
        let (k, v) = entry;
        match best {
            Some(b) => {
                if v.ref_count < b.1 {
                    best = Some((*k, v.ref_count));
                }
            },
            None => {
                best = Some((*k, v.ref_count));
            },
        }
    }
    match best {
        Some(b) => Some(b.0),
        None => None,
    }
}

/// Shader permutation cache: compiled shader variants keyed by the hash of
/// their permutation key, an optional size limit (0 = unlimited), and hit and
/// miss counters.
#[derive(Debug)]
pub struct PermutationCache {
    shaders: HashMap<u64, CachedShader>,
    max_size: usize,
    cache_hits: u64,
    cache_misses: u64,
}

/// The entry after one more reference is taken.
pub open spec fn with_one_more_ref(s: CachedShader) -> CachedShader {
    CachedShader { ref_count: (s.ref_count + 1) as u32, ..s }
}

/// The entry after one reference is given back (not below zero).
pub open spec fn with_one_less_ref(s: CachedShader) -> CachedShader {
    CachedShader { ref_count: if s.ref_count > 0 { (s.ref_count - 1) as u32 } else { 0 }, ..s }
}

/// `e` is an entry of `m` with the lowest reference count.
pub open spec fn is_lowest_entry(m: Map<u64, CachedShader>, e: u64) -> bool {
    &&& m.contains_key(e)
    &&& forall|j: u64| m.contains_key(j) ==> m[e].ref_count <= #[trigger] m[j].ref_count
}

/// `after` is what inserting `shader` into the entries `before` of a cache
/// limited to `max_size` (0 = unlimited) leaves: when the cache is full, an
/// entry with the lowest reference count makes room first; the shader is
/// then stored under its key's hash.
pub open spec fn is_insert_outcome(
    before: Map<u64, CachedShader>,
    max_size: usize,
    shader: CachedShader,
    after: Map<u64, CachedShader>,
) -> bool {
    if max_size > 0 && before.len() >= max_size {
        exists|e: u64|
            is_lowest_entry(before, e) && after == before.remove(e).insert(key_hash(shader.key), shader)
    } else {
        after == before.insert(key_hash(shader.key), shader)
    }
}

/// A shader just inserted is found under its key, as it was given; and a
/// cache that was within its limit stays within it.
pub proof fn lemma_insert_then_lookup(
    before: Map<u64, CachedShader>,
    max_size: usize,
    shader: CachedShader,
    after: Map<u64, CachedShader>,
)
    requires
        before.dom().finite(),
        is_insert_outcome(before, max_size, shader, after),
    ensures
        after.contains_key(key_hash(shader.key)),
        after[key_hash(shader.key)] == shader,
        max_size > 0 && before.len() <= max_size ==> after.len() <= max_size,
{
    broadcast use vstd::map_lib::group_map_properties;

    if max_size > 0 && before.len() >= max_size {
        let e = choose|e: u64|
            is_lowest_entry(before, e) && after == before.remove(e).insert(key_hash(shader.key), shader);
        assert(before.remove(e).len() == before.len() - 1);
    }
}

/// Every entry is stored under the hash of its own key, and there are
/// finitely many.
pub open spec fn keyed_by_hash(m: Map<u64, CachedShader>) -> bool {
    &&& m.dom().finite()
    &&& forall|k: u64| #[trigger] m.contains_key(k) ==> key_hash(m[k].key) == k
}

impl Clone for PermutationCache {
    fn clone(&self) -> (r: Self)
        ensures
            r.entries() == self.entries(),
            r.spec_max_size() == self.spec_max_size(),
            r.spec_hits() == self.spec_hits(),
            r.spec_misses() == self.spec_misses(),
    {
        PermutationCache {
            shaders: self.shaders.clone(),
            max_size: self.max_size,
            cache_hits: self.cache_hits,
            cache_misses: self.cache_misses,
        }
    }
}

impl Default for PermutationCache {
    fn default() -> (r: Self)
        ensures
            r.wf(),
            r.entries() == Map::<u64, CachedShader>::empty(),
            r.spec_max_size() == 0,
            r.spec_hits() == 0,
            r.spec_misses() == 0,
    {
        PermutationCache { shaders: HashMap::new(), max_size: 0, cache_hits: 0, cache_misses: 0 }
    }
}

impl PermutationCache {
    /// The cached shaders, by key hash
    pub closed spec fn entries(&self) -> Map<u64, CachedShader> {
        self.shaders@
    }

    /// The size limit (0 = unlimited)
    pub closed spec fn spec_max_size(&self) -> usize {
        self.max_size
    }

    /// The number of lookups that found their shader
    pub closed spec fn spec_hits(&self) -> u64 {
        self.cache_hits
    }

    /// The number of lookups that did not
    pub closed spec fn spec_misses(&self) -> u64 {
        self.cache_misses
    }

    /// Well-formed: every entry is stored under the hash of its own key
    pub open spec fn wf(&self) -> bool {
        keyed_by_hash(self.entries())
    }

    /// An empty cache without a size limit
    pub fn new() -> (r: Self)
        ensures
            r.wf(),
            r.entries() == Map::<u64, CachedShader>::empty(),
            r.spec_max_size() == 0,
            r.spec_hits() == 0,
            r.spec_misses() == 0,
    {
        Self::default()
    }

    /// An empty cache holding at most `max_size` shaders (0 = unlimited)
    pub fn with_capacity(max_size: usize) -> (r: Self)
        ensures
            r.wf(),
            r.entries() == Map::<u64, CachedShader>::empty(),
            r.spec_max_size() == max_size,
            r.spec_hits() == 0,
            r.spec_misses() == 0,
    {
        PermutationCache { shaders: HashMap::new(), max_size, cache_hits: 0, cache_misses: 0 }
    }

    /// Look up a shader by key. A hit counts a hit and takes one more
    /// reference on the entry; a miss counts a miss.
    pub fn get(&mut self, key: &ShaderPermutationKey) -> (r: Option<&CachedShader>)
        requires
            old(self).entries().contains_key(key_hash(*key)) ==> old(self).spec_hits() < u64::MAX
                && old(self).entries()[key_hash(*key)].ref_count < u32::MAX,
            !old(self).entries().contains_key(key_hash(*key)) ==> old(self).spec_misses()
                < u64::MAX,
        ensures
            old(self).wf() ==> final(self).wf(),
            old(self).wf() ==> (r matches Some(s) ==> key_hash(s.key) == key_hash(*key)),
            final(self).spec_max_size() == old(self).spec_max_size(),
            old(self).entries().contains_key(key_hash(*key)) ==> {
                &&& final(self).entries() == old(self).entries().insert(
                    key_hash(*key),
                    with_one_more_ref(old(self).entries()[key_hash(*key)]),
                )
                &&& final(self).spec_hits() == old(self).spec_hits() + 1
                &&& final(self).spec_misses() == old(self).spec_misses()
                &&& r matches Some(s) && *s == with_one_more_ref(
                    old(self).entries()[key_hash(*key)],
                )
            },
            !old(self).entries().contains_key(key_hash(*key)) ==> {
                &&& final(self).entries() == old(self).entries()
                &&& final(self).spec_hits() == old(self).spec_hits()
                &&& final(self).spec_misses() == old(self).spec_misses() + 1
                &&& r is None
            },
    {
        broadcast use vstd::std_specs::hash::group_hash_axioms;
        let hash = key.hash();
        if self.shaders.contains_key(&hash) {
            self.cache_hits = self.cache_hits + 1;
            match self.shaders.remove(&hash) {
                Some(mut shader) => {
                    shader.add_ref();
                    self.shaders.insert(hash, shader);
                },
                None => {},
            }
            assert(self.shaders@.contains_key(hash));
            self.shaders.get(&hash)
        } else {
            self.cache_misses = self.cache_misses + 1;
            None
        }
    }

    /// Insert a shader under the hash of its key. When the cache has a size
    /// limit and is full, an entry with the lowest reference count is evicted
    /// first.
    pub fn insert(&mut self, shader: CachedShader)
        ensures
            old(self).wf() ==> final(self).wf(),
            final(self).spec_max_size() == old(self).spec_max_size(),
            final(self).spec_hits() == old(self).spec_hits(),
            final(self).spec_misses() == old(self).spec_misses(),
            is_insert_outcome(old(self).entries(), old(self).spec_max_size(), shader, final(self).entries()),
            old(self).spec_max_size() > 0 && old(self).entries().len()
                <= old(self).spec_max_size() ==> final(self).entries().len()
                <= final(self).spec_max_size(),
    {
        broadcast use vstd::std_specs::hash::group_hash_axioms;
        broadcast use vstd::map_lib::group_map_properties;
        if self.max_size > 0 && self.shaders.len() >= self.max_size {
            let evict = lowest_ref_count_key(&self.shaders);
            match evict {
                Some(e) => {
                    let ghost before = self.shaders@;
                    self.shaders.remove(&e);
                    let hash = shader.key.hash();
                    self.shaders.insert(hash, shader);
                    assert(is_lowest_entry(before, e));
                    assert(self.shaders@.len() <= before.len());
                },
                None => {
                    let hash = shader.key.hash();
                    self.shaders.insert(hash, shader);
                },
            }
        } else {
            let hash = shader.key.hash();
            self.shaders.insert(hash, shader);
        }
    }

    /// Remove the shader of a key, handing it back if it was cached
    pub fn remove(&mut self, key: &ShaderPermutationKey) -> (r: Option<CachedShader>)
        ensures
            old(self).wf() ==> final(self).wf(),
            old(self).wf() ==> (r matches Some(s) ==> key_hash(s.key) == key_hash(*key)),
            final(self).entries() == old(self).entries().remove(key_hash(*key)),
            final(self).entries().len() == if old(self).entries().contains_key(key_hash(*key)) {
                old(self).entries().len() - 1
            } else {
                old(self).entries().len() as int
            },
            final(self).spec_max_size() == old(self).spec_max_size(),
            final(self).spec_hits() == old(self).spec_hits(),
            final(self).spec_misses() == old(self).spec_misses(),
            r == (if old(self).entries().contains_key(key_hash(*key)) {
                Some(old(self).entries()[key_hash(*key)])
            } else {
                None
            }),
    {
        broadcast use vstd::std_specs::hash::group_hash_axioms;
        let hash = key.hash();
        self.shaders.remove(&hash)
    }

    /// Give back one reference to a cached shader; the entry leaves the cache
    /// when its count reaches zero
    pub fn release(&mut self, key: &ShaderPermutationKey)
        ensures
            old(self).wf() ==> final(self).wf(),
            final(self).spec_max_size() == old(self).spec_max_size(),
            final(self).spec_hits() == old(self).spec_hits(),
            final(self).spec_misses() == old(self).spec_misses(),
            old(self).entries().contains_key(key_hash(*key)) ==> {
                let s = with_one_less_ref(old(self).entries()[key_hash(*key)]);
                if s.ref_count == 0 {
                    &&& final(self).entries() == old(self).entries().remove(key_hash(*key))
                    &&& final(self).entries().len() == old(self).entries().len() - 1
                } else {
                    final(self).entries() == old(self).entries().insert(key_hash(*key), s)
                }
            },
            !old(self).entries().contains_key(key_hash(*key)) ==> final(self).entries() == old(
                self,
            ).entries(),
    {
        broadcast use vstd::std_specs::hash::group_hash_axioms;
        let hash = key.hash();
        match self.shaders.remove(&hash) {
            Some(mut shader) => {
                let zero = shader.release();
                if !zero {
                    self.shaders.insert(hash, shader);
                }
            },
            None => {},
        }
    }

    /// Drop every cached shader (the counters stay)
    pub fn clear(&mut self)
        ensures
            final(self).wf(),
            final(self).entries() == Map::<u64, CachedShader>::empty(),
            final(self).spec_max_size() == old(self).spec_max_size(),
            final(self).spec_hits() == old(self).spec_hits(),
            final(self).spec_misses() == old(self).spec_misses(),
    {
        self.shaders.clear();
    }

    /// The number of cached shaders
    pub fn len(&self) -> (r: usize)
        ensures
            r == self.entries().len(),
    {
        broadcast use vstd::std_specs::hash::group_hash_axioms;
        self.shaders.len()
    }

    /// Whether the cache is empty
    pub fn is_empty(&self) -> (r: bool)
        ensures
            r == (self.entries().len() == 0),
    {
        broadcast use vstd::std_specs::hash::group_hash_axioms;
        broadcast use vstd::map_lib::group_map_properties;
        let r = self.shaders.is_empty();
        proof {
            if self.shaders@.len() == 0 {
                assert(self.shaders@.dom() =~= Set::<u64>::empty());
                assert(self.shaders@ =~= Map::<u64, CachedShader>::empty());
            }
        }
        r
    }

    /// Whether a shader for the key is cached
    pub fn contains(&self, key: &ShaderPermutationKey) -> (r: bool)
        ensures
            r == self.entries().contains_key(key_hash(*key)),
    {
        broadcast use vstd::std_specs::hash::group_hash_axioms;
        self.shaders.contains_key(&key.hash())
    }

    /// The number of hits so far
    pub fn cache_hits(&self) -> (r: u64)
        ensures
            r == self.spec_hits(),
    {
        self.cache_hits
    }

    /// The number of misses so far
    pub fn cache_misses(&self) -> (r: u64)
        ensures
            r == self.spec_misses(),
    {
        self.cache_misses
    }

    /// Set both counters back to zero
    pub fn reset_stats(&mut self)
        ensures
            final(self).entries() == old(self).entries(),
            final(self).spec_max_size() == old(self).spec_max_size(),
            final(self).spec_hits() == 0,
            final(self).spec_misses() == 0,
    {
        self.cache_hits = 0;
        self.cache_misses = 0;
    }

    /// The hashes of all cached shaders, each once, in no fixed order
    pub fn keys(&self) -> (r: Vec<u64>)
        ensures
            r@.to_set() == self.entries().dom(),
            r@.no_duplicates(),
            r@.len() == self.entries().len(),
    {
        broadcast use vstd::std_specs::hash::group_hash_axioms;
        let mut out: Vec<u64> = Vec::new();
        let ghost all = spec_keys_iter(&self.shaders).remaining();
        for k in it: self.shaders.keys()
            invariant
                it.seq() == all,
                all == spec_keys_iter(&self.shaders).remaining(),
                out@ == all.take(it.index() as int).unref(),
        {
            proof {
                assert(it.seq().take(it.index() + 1).unref() == it.seq().take(
                    it.index() as int,
                ).unref().push(*it.seq()[it.index() as int]));
            }
            out.push(*k);
        }
        assert(all.take(all.len() as int) == all);
        out
    }
}

/// No part of a description but the IBL part is three characters long.
proof fn lemma_parts_other_than_ibl(k: ShaderPermutationKey)
    ensures
        forall|i: int|
            0 <= i < describe_parts(k).len() && describe_parts(k)[i].len() == 3 ==> describe_parts(
                k,
            )[i] == "IBL"@,
        !key_uses_ibl(k) ==> forall|i: int|
            0 <= i < describe_parts(k).len() ==> describe_parts(k)[i].len() != 3,
{
    reveal_strlit("AlbedoMap");
    reveal_strlit("NormalMap");
    reveal_strlit("MetallicMap");
    reveal_strlit("RoughnessMap");
    reveal_strlit("AoMap");
    reveal_strlit("EmissiveMap");
    reveal_strlit("HeightMap");
    reveal_strlit("Opaque");
    reveal_strlit("Mask");
    reveal_strlit("Blend");
    reveal_strlit("UnknownAlpha");
    reveal_strlit("Lights:");
    reveal_strlit("CSM:");
    reveal_strlit("TonemapNone");
    reveal_strlit("TonemapACES");
    reveal_strlit("TonemapReinhard");
    reveal_strlit("TonemapFilmic");
    let t = texture_parts(k.flags);
    assert forall|i: int| 0 <= i < t.len() implies t[i].len() >= 5 by {}
    let a = alpha_text(k.alpha_mode);
    assert(a.len() >= 4);
}

/// A description holds the part `IBL` exactly when the key uses image-based
/// lighting: when its IBL switch is on or its flags hold `USE_IBL` (bit 7).
pub proof fn lemma_describe_ibl_part(k: ShaderPermutationKey)
    ensures
        describe_parts(k).contains("IBL"@) <==> (k.ibl_enabled || k.flags & (1u32 << 7u32) != 0),
        describe_text(k) == join_bar(describe_parts(k)),
{
    lemma_parts_other_than_ibl(k);
    reveal_strlit("IBL");
    let p = describe_parts(k);
    if k.ibl_enabled || k.flags & (1u32 << 7u32) != 0 {
        let t = texture_parts(k.flags).push(alpha_text(k.alpha_mode)).push(
            "Lights:"@ + decimal_text(k.light_count as nat),
        );
        let t = if k.shadows_enabled {
            t.push("CSM:"@ + decimal_text(k.cascade_count as nat))
        } else {
            t
        };
        assert(p[t.len() as int] == "IBL"@);
    } else {
        assert forall|i: int| 0 <= i < p.len() implies p[i] != "IBL"@ by {
            assert(p[i].len() != 3);
        }
    }
}

/// The IBL switch and the `USE_IBL` flag are two ways to ask for the same
/// thing: a key whose flags hold `USE_IBL` is described exactly as the same
/// key with its IBL switch turned on.
pub proof fn lemma_describe_ibl_flag_as_switch(k: ShaderPermutationKey)
    requires
        k.flags & (1u32 << 7u32) != 0,
    ensures
        describe_text(k) == describe_text(ShaderPermutationKey { ibl_enabled: true, ..k }),
{
}

/// The only part of a description that begins with `C` is the cascade part.
proof fn lemma_parts_first_letters(k: ShaderPermutationKey)
    ensures
        forall|i: int|
            0 <= i < describe_parts(k).len() && describe_parts(k)[i].len() > 0 && describe_parts(
                k,
            )[i][0] == 'C' ==> k.shadows_enabled && describe_parts(k)[i] == "CSM:"@ + decimal_text(
                k.cascade_count as nat,
            ),
{
    reveal_strlit("AlbedoMap");
    reveal_strlit("NormalMap");
    reveal_strlit("MetallicMap");
    reveal_strlit("RoughnessMap");
    reveal_strlit("AoMap");
    reveal_strlit("EmissiveMap");
    reveal_strlit("HeightMap");
    reveal_strlit("Opaque");
    reveal_strlit("Mask");
    reveal_strlit("Blend");
    reveal_strlit("UnknownAlpha");
    reveal_strlit("Lights:");
    reveal_strlit("IBL");
    reveal_strlit("TonemapNone");
    reveal_strlit("TonemapACES");
    reveal_strlit("TonemapReinhard");
    reveal_strlit("TonemapFilmic");
    let t = texture_parts(k.flags);
    assert forall|i: int| 0 <= i < t.len() implies t[i].len() > 0 && t[i][0] != 'C' by {}
    let a = alpha_text(k.alpha_mode);
    assert(a.len() > 0 && a[0] != 'C');
    let l = "Lights:"@ + decimal_text(k.light_count as nat);
    assert(l[0] == 'L');
}

/// A description holds the cascade part `CSM:<count>` exactly when shadow
/// mapping is on.
pub proof fn lemma_describe_shadow_part(k: ShaderPermutationKey)
    ensures
        describe_parts(k).contains("CSM:"@ + decimal_text(k.cascade_count as nat))
            <==> k.shadows_enabled,
{
    lemma_parts_first_letters(k);
    reveal_strlit("CSM:");
    let c = "CSM:"@ + decimal_text(k.cascade_count as nat);
    assert(c[0] == 'C');
    let p = describe_parts(k);
    let t = texture_parts(k.flags).push(alpha_text(k.alpha_mode)).push(
        "Lights:"@ + decimal_text(k.light_count as nat),
    );
    if k.shadows_enabled {
        assert(p[t.len() as int] == c);
    } else {
        assert forall|i: int| 0 <= i < p.len() implies p[i] != c by {
            if p[i] == c {
                assert(p[i][0] == 'C');
            }
        }
    }
}

} // verus!
