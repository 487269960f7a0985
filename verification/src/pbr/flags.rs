use vstd::prelude::*;

verus! {

/// Bitflags indicating which features a PBR material uses.
///
/// These flags are used for shader permutation selection and GPU binding optimization.
/// The view of a value is its raw bit pattern.
#[derive(Clone, Copy, Debug, Default, PartialEq, Eq, Hash, Structural)]
pub struct PbrMaterialFlags(u32);

impl View for PbrMaterialFlags {
    type V = u32;

    closed spec fn view(&self) -> u32 {
        self.0
    }
}

/// The bits of the seven texture-map flags (albedo .. height).
pub open spec fn texture_map_bits() -> u32 {
    0x7F
}

impl PbrMaterialFlags {
    /// Material has an albedo (base color) texture map
    #[allow(non_snake_case)]
    pub fn HAS_ALBEDO_MAP() -> (r: Self)
        ensures
            r@ == 1u32 << 0u32,
    {
        PbrMaterialFlags(1u32 << 0u32)
    }

    /// Material has a normal map
    #[allow(non_snake_case)]
    pub fn HAS_NORMAL_MAP() -> (r: Self)
        ensures
            r@ == 1u32 << 1u32,
    {
        PbrMaterialFlags(1u32 << 1u32)
    }

    /// Material has a metallic map
    #[allow(non_snake_case)]
    pub fn HAS_METALLIC_MAP() -> (r: Self)
        ensures
            r@ == 1u32 << 2u32,
    {
        PbrMaterialFlags(1u32 << 2u32)
    }

    /// Material has a roughness map
    #[allow(non_snake_case)]
    pub fn HAS_ROUGHNESS_MAP() -> (r: Self)
        ensures
            r@ == 1u32 << 3u32,
    {
        PbrMaterialFlags(1u32 << 3u32)
    }

    /// Material has an ambient occlusion map
    #[allow(non_snake_case)]
    pub fn HAS_AO_MAP() -> (r: Self)
        ensures
            r@ == 1u32 << 4u32,
    {
        PbrMaterialFlags(1u32 << 4u32)
    }

    /// Material has an emissive map
    #[allow(non_snake_case)]
    pub fn HAS_EMISSIVE_MAP() -> (r: Self)
        ensures
            r@ == 1u32 << 5u32,
    {
        PbrMaterialFlags(1u32 << 5u32)
    }

    /// Material has a height/displacement map
    #[allow(non_snake_case)]
    pub fn HAS_HEIGHT_MAP() -> (r: Self)
        ensures
            r@ == 1u32 << 6u32,
    {
        PbrMaterialFlags(1u32 << 6u32)
    }

    /// Material uses image-based lighting
    #[allow(non_snake_case)]
    pub fn USE_IBL() -> (r: Self)
        ensures
            r@ == 1u32 << 7u32,
    {
        PbrMaterialFlags(1u32 << 7u32)
    }

    /// Material has clear coat layer
    #[allow(non_snake_case)]
    pub fn USE_CLEAR_COAT() -> (r: Self)
        ensures
            r@ == 1u32 << 8u32,
    {
        PbrMaterialFlags(1u32 << 8u32)
    }

    /// Material has anisotropic reflections
    #[allow(non_snake_case)]
    pub fn USE_ANISOTROPY() -> (r: Self)
        ensures
            r@ == 1u32 << 9u32,
    {
        PbrMaterialFlags(1u32 << 9u32)
    }

    /// Material has sheen (fabric-like soft highlights)
    #[allow(non_snake_case)]
    pub fn USE_SHEEN() -> (r: Self)
        ensures
            r@ == 1u32 << 10u32,
    {
        PbrMaterialFlags(1u32 << 10u32)
    }

    /// Material has subsurface scattering
    #[allow(non_snake_case)]
    pub fn USE_SUBSURFACE() -> (r: Self)
        ensures
            r@ == 1u32 << 11u32,
    {
        PbrMaterialFlags(1u32 << 11u32)
    }

    /// Material uses parallax occlusion mapping
    #[allow(non_snake_case)]
    pub fn USE_PARALLAX() -> (r: Self)
        ensures
            r@ == 1u32 << 12u32,
    {
        PbrMaterialFlags(1u32 << 12u32)
    }

    /// Create empty flags (no features enabled)
    pub fn empty() -> (r: Self)
        ensures
            r@ == 0,
    {
        PbrMaterialFlags(0)
    }

    /// Create flags with all features enabled (the low sixteen bits)
    pub fn all() -> (r: Self)
        ensures
            r@ == 0xFFFF,
    {
        PbrMaterialFlags(0xFFFF)
    }

    /// Check if a specific flag is set: true when the two share at least one bit
    pub fn contains(self, flag: Self) -> (r: bool)
        ensures
            r == (self@ & flag@ != 0),
    {
        (self.0 & flag.0) != 0
    }

    /// Set a flag
    pub fn insert(&mut self, flag: Self)
        ensures
            final(self)@ == old(self)@ | flag@,
    {
        self.0 = self.0 | flag.0;
    }

    /// Remove a flag
    pub fn remove(&mut self, flag: Self)
        ensures
            final(self)@ == old(self)@ & !flag@,
    {
        self.0 = self.0 & !flag.0;
    }

    /// Get the raw bit value
    pub fn bits(self) -> (r: u32)
        ensures
            r == self@,
    {
        self.0
    }

    /// Create flags from raw bits
    pub fn from_bits(bits: u32) -> (r: Self)
        ensures
            r@ == bits,
    {
        PbrMaterialFlags(bits)
    }

    /// Check if any texture map flags are set
    pub fn has_any_texture(self) -> (r: bool)
        ensures
            r == (self@ & texture_map_bits() != 0),
    {
        let r = self.contains(Self::HAS_ALBEDO_MAP()) || self.contains(Self::HAS_NORMAL_MAP())
            || self.contains(Self::HAS_METALLIC_MAP()) || self.contains(Self::HAS_ROUGHNESS_MAP())
            || self.contains(Self::HAS_AO_MAP()) || self.contains(Self::HAS_EMISSIVE_MAP())
            || self.contains(Self::HAS_HEIGHT_MAP());
        let b = self.0;
        assert(((b & 1u32 << 0u32) != 0 || (b & 1u32 << 1u32) != 0 || (b & 1u32 << 2u32) != 0
            || (b & 1u32 << 3u32) != 0 || (b & 1u32 << 4u32) != 0 || (b & 1u32 << 5u32) != 0
            || (b & 1u32 << 6u32) != 0) == (b & 0x7F != 0)) by (bit_vector);
        r
    }
}

impl core::ops::BitOr for PbrMaterialFlags {
    type Output = Self;

    fn bitor(self, rhs: Self) -> (r: Self)
        ensures
            r@ == self@ | rhs@,
    {
        PbrMaterialFlags(self.0 | rhs.0)
    }
}

impl vstd::std_specs::ops::BitOrSpecImpl for PbrMaterialFlags {
    open spec fn obeys_bitor_spec() -> bool {
        true
    }

    open spec fn bitor_req(self, rhs: Self) -> bool {
        true
    }

    closed spec fn bitor_spec(self, rhs: Self) -> Self {
        PbrMaterialFlags(self.0 | rhs.0)
    }
}

impl core::ops::BitOrAssign for PbrMaterialFlags {
    fn bitor_assign(&mut self, rhs: Self)
        ensures
            final(self)@ == old(self)@ | rhs@,
    {
        self.0 = self.0 | rhs.0;
    }
}

impl core::ops::BitAnd for PbrMaterialFlags {
    type Output = Self;

    fn bitand(self, rhs: Self) -> (r: Self)
        ensures
            r@ == self@ & rhs@,
    {
        PbrMaterialFlags(self.0 & rhs.0)
    }
}

impl vstd::std_specs::ops::BitAndSpecImpl for PbrMaterialFlags {
    open spec fn obeys_bitand_spec() -> bool {
        true
    }

    open spec fn bitand_req(self, rhs: Self) -> bool {
        true
    }

    closed spec fn bitand_spec(self, rhs: Self) -> Self {
        PbrMaterialFlags(self.0 & rhs.0)
    }
}

/// Inserting a nonzero flag makes it contained; removing a flag makes it no
/// longer contained; the raw bits survive a round trip through `from_bits`.
pub proof fn lemma_flags_insert_remove(bits: u32, flag: u32)
    ensures
        flag != 0 ==> (bits | flag) & flag != 0,
        (bits & !flag) & flag == 0,
        (bits & !flag) | flag == bits | flag,
{
    assert(flag != 0 ==> (bits | flag) & flag != 0) by (bit_vector);
    assert((bits & !flag) & flag == 0) by (bit_vector);
    assert((bits & !flag) | flag == bits | flag) by (bit_vector);
}

/// Two flag sets with the same bits are the same value.
pub proof fn lemma_flags_view_injective(a: PbrMaterialFlags, b: PbrMaterialFlags)
    ensures
        a@ == b@ ==> a == b,
{
}

} // verus!
