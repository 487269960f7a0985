use vstd::prelude::*;
use crate::pbr::flags::PbrMaterialFlags;

verus! {

/// Alpha blending mode for materials
#[derive(Clone, Copy, Debug, PartialEq, Eq, Structural)]
pub enum AlphaMode {
    /// Fully opaque, no transparency
    Opaque,
    /// Alpha mask with cutoff threshold (binary transparency)
    Mask,
    /// Alpha blending for smooth transparency
    Blend,
}

impl Default for AlphaMode {
    fn default() -> (r: Self)
        ensures
            r == AlphaMode::Opaque,
    {
        AlphaMode::Opaque
    }
}

/// What the flag computation of a material reads: which texture maps are
/// bound, and which optional layers have a strength above zero.
#[derive(Clone, Copy, Debug, Default, PartialEq, Eq, Structural)]
pub struct MaterialFeatures {
    /// An albedo map is bound
    pub has_albedo_map: bool,
    /// A normal map is bound
    pub has_normal_map: bool,
    /// A metallic map is bound
    pub has_metallic_map: bool,
    /// A roughness map is bound
    pub has_roughness_map: bool,
    /// An ambient occlusion map is bound
    pub has_ao_map: bool,
    /// An emissive map is bound
    pub has_emissive_map: bool,
    /// A height map is bound
    pub has_height_map: bool,
    /// Clear-coat strength is above zero
    pub clear_coat: bool,
    /// Anisotropy is above zero
    pub anisotropy: bool,
    /// Sheen roughness is above zero
    pub sheen: bool,
    /// Subsurface strength is above zero
    pub subsurface: bool,
    /// Parallax strength is above zero
    pub parallax: bool,
}

/// The bit at `shift` when `b` holds, else nothing.
pub open spec fn bit_if(b: bool, shift: u32) -> u32 {
    if b {
        1u32 << shift
    } else {
        0u32
    }
}

/// The flag bits of a material: one bit per bound map and per active layer;
/// parallax counts only when a height map is bound.
pub open spec fn feature_bits(f: MaterialFeatures) -> u32 {
    bit_if(f.has_albedo_map, 0) | bit_if(f.has_normal_map, 1) | bit_if(f.has_metallic_map, 2)
        | bit_if(f.has_roughness_map, 3) | bit_if(f.has_ao_map, 4) | bit_if(f.has_emissive_map, 5)
        | bit_if(f.has_height_map, 6) | bit_if(f.clear_coat, 8) | bit_if(f.anisotropy, 9)
        | bit_if(f.sheen, 10) | bit_if(f.subsurface, 11) | bit_if(f.parallax && f.has_height_map, 12)
}

proof fn lemma_or_zero(x: u32)
    ensures
        x | 0u32 == x,
{
    assert(x | 0u32 == x) by (bit_vector);
}

/// The flags of a material name a texture map exactly when one is bound, and
/// ask for parallax only when a height map is bound.
pub proof fn lemma_feature_bits_maps(f: MaterialFeatures)
    ensures
        (feature_bits(f) & 0x7Fu32 != 0) <==> (f.has_albedo_map || f.has_normal_map
            || f.has_metallic_map || f.has_roughness_map || f.has_ao_map || f.has_emissive_map
            || f.has_height_map),
        feature_bits(f) & (1u32 << 12u32) != 0 ==> feature_bits(f) & (1u32 << 6u32) != 0,
{
    let a = f.has_albedo_map;
    let n = f.has_normal_map;
    let m = f.has_metallic_map;
    let r = f.has_roughness_map;
    let o = f.has_ao_map;
    let e = f.has_emissive_map;
    let h = f.has_height_map;
    let c = f.clear_coat;
    let y = f.anisotropy;
    let s = f.sheen;
    let u = f.subsurface;
    let p = f.parallax;
    let bits = bit_if(a, 0) | bit_if(n, 1) | bit_if(m, 2) | bit_if(r, 3) | bit_if(o, 4) | bit_if(e, 5)
        | bit_if(h, 6) | bit_if(c, 8) | bit_if(y, 9) | bit_if(s, 10) | bit_if(u, 11) | bit_if(p && h, 12);
    assert(bits == feature_bits(f));
    assert(((bits & 0x7Fu32 != 0) <==> (a || n || m || r || o || e || h)) && (bits & (1u32 << 12u32) != 0
        ==> bits & (1u32 << 6u32) != 0)) by (bit_vector)
        requires
            bits == bit_if(a, 0) | bit_if(n, 1) | bit_if(m, 2) | bit_if(r, 3) | bit_if(o, 4) | bit_if(e, 5)
                | bit_if(h, 6) | bit_if(c, 8) | bit_if(y, 9) | bit_if(s, 10) | bit_if(u, 11) | bit_if(p && h, 12),
    ;
}

/// Each flag bit of a material is set exactly when its own feature holds:
/// bits 0 to 6 for the albedo, normal, metallic, roughness, AO, emissive
/// and height maps, bits 8 to 11 for clear coat, anisotropy, sheen and
/// subsurface, bit 12 for parallax with a height map; no other bit is ever
/// set (in particular not bit 7, image-based lighting).
pub proof fn lemma_feature_bits_each(f: MaterialFeatures)
    ensures
        (feature_bits(f) & (1u32 << 0u32) != 0) == f.has_albedo_map,
        (feature_bits(f) & (1u32 << 1u32) != 0) == f.has_normal_map,
        (feature_bits(f) & (1u32 << 2u32) != 0) == f.has_metallic_map,
        (feature_bits(f) & (1u32 << 3u32) != 0) == f.has_roughness_map,
        (feature_bits(f) & (1u32 << 4u32) != 0) == f.has_ao_map,
        (feature_bits(f) & (1u32 << 5u32) != 0) == f.has_emissive_map,
        (feature_bits(f) & (1u32 << 6u32) != 0) == f.has_height_map,
        (feature_bits(f) & (1u32 << 8u32) != 0) == f.clear_coat,
        (feature_bits(f) & (1u32 << 9u32) != 0) == f.anisotropy,
        (feature_bits(f) & (1u32 << 10u32) != 0) == f.sheen,
        (feature_bits(f) & (1u32 << 11u32) != 0) == f.subsurface,
        (feature_bits(f) & (1u32 << 12u32) != 0) == (f.parallax && f.has_height_map),
        feature_bits(f) & !0x1F7Fu32 == 0,
{
    let a = f.has_albedo_map;
    let n = f.has_normal_map;
    let m = f.has_metallic_map;
    let r = f.has_roughness_map;
    let o = f.has_ao_map;
    let e = f.has_emissive_map;
    let h = f.has_height_map;
    let c = f.clear_coat;
    let y = f.anisotropy;
    let s = f.sheen;
    let u = f.subsurface;
    let p = f.parallax;
    let bits = feature_bits(f);
    assert(bits == bit_if(a, 0) | bit_if(n, 1) | bit_if(m, 2) | bit_if(r, 3) | bit_if(o, 4) | bit_if(e, 5)
        | bit_if(h, 6) | bit_if(c, 8) | bit_if(y, 9) | bit_if(s, 10) | bit_if(u, 11) | bit_if(p && h, 12));
    assert({
        &&& (bits & (1u32 << 0u32) != 0) == a
        &&& (bits & (1u32 << 1u32) != 0) == n
        &&& (bits & (1u32 << 2u32) != 0) == m
        &&& (bits & (1u32 << 3u32) != 0) == r
        &&& (bits & (1u32 << 4u32) != 0) == o
        &&& (bits & (1u32 << 5u32) != 0) == e
        &&& (bits & (1u32 << 6u32) != 0) == h
        &&& (bits & (1u32 << 8u32) != 0) == c
        &&& (bits & (1u32 << 9u32) != 0) == y
        &&& (bits & (1u32 << 10u32) != 0) == s
        &&& (bits & (1u32 << 11u32) != 0) == u
        &&& (bits & (1u32 << 12u32) != 0) == (p && h)
        &&& bits & !0x1F7Fu32 == 0
    }) by (bit_vector)
        requires
            bits == bit_if(a, 0) | bit_if(n, 1) | bit_if(m, 2) | bit_if(r, 3) | bit_if(o, 4) | bit_if(e, 5)
                | bit_if(h, 6) | bit_if(c, 8) | bit_if(y, 9) | bit_if(s, 10) | bit_if(u, 11) | bit_if(p && h, 12),
    ;
}

/// Insert `flag` when `on` holds.
fn insert_when(flags: &mut PbrMaterialFlags, on: bool, flag: PbrMaterialFlags)
    ensures
        final(flags)@ == old(flags)@ | (if on {
            flag@
        } else {
            0u32
        }),
{
    proof {
        lemma_or_zero(old(flags)@);
    }
    if on {
        flags.insert(flag);
    }
}

impl MaterialFeatures {
    /// The material flags for these features
    pub fn flags(&self) -> (r: PbrMaterialFlags)
        ensures
            r@ == feature_bits(*self),
    {
        let mut flags = PbrMaterialFlags::empty();
        insert_when(&mut flags, self.has_albedo_map, PbrMaterialFlags::HAS_ALBEDO_MAP());
        insert_when(&mut flags, self.has_normal_map, PbrMaterialFlags::HAS_NORMAL_MAP());
        insert_when(&mut flags, self.has_metallic_map, PbrMaterialFlags::HAS_METALLIC_MAP());
        insert_when(&mut flags, self.has_roughness_map, PbrMaterialFlags::HAS_ROUGHNESS_MAP());
        insert_when(&mut flags, self.has_ao_map, PbrMaterialFlags::HAS_AO_MAP());
        insert_when(&mut flags, self.has_emissive_map, PbrMaterialFlags::HAS_EMISSIVE_MAP());
        insert_when(&mut flags, self.has_height_map, PbrMaterialFlags::HAS_HEIGHT_MAP());
        insert_when(&mut flags, self.clear_coat, PbrMaterialFlags::USE_CLEAR_COAT());
        insert_when(&mut flags, self.anisotropy, PbrMaterialFlags::USE_ANISOTROPY());
        insert_when(&mut flags, self.sheen, PbrMaterialFlags::USE_SHEEN());
        insert_when(&mut flags, self.subsurface, PbrMaterialFlags::USE_SUBSURFACE());
        insert_when(&mut flags, self.parallax && self.has_height_map, PbrMaterialFlags::USE_PARALLAX());
        proof {
            let b0 = bit_if(self.has_albedo_map, 0);
            assert(0u32 | b0 == b0) by (bit_vector);
        }
        flags
    }
}

} // verus!
