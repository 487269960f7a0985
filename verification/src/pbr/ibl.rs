use vstd::prelude::*;
use vstd::string::StringExecFns;

verus! {

/// Cube map texture description
#[derive(Clone, Debug)]
pub struct CubeMap {
    /// Size of each face in pixels
    pub size: u32,
    /// Number of mip levels
    pub mip_levels: u32,
    /// Texture path or identifier
    pub path: String,
}

impl Default for CubeMap {
    fn default() -> (r: Self)
        ensures
            r.size == 0,
            r.mip_levels == 0,
            r.path@ == Seq::<char>::empty(),
    {
        CubeMap { size: 0, mip_levels: 0, path: String::new() }
    }
}

/// 2D texture description
#[derive(Clone, Debug)]
pub struct Texture2D {
    /// Width in pixels
    pub width: u32,
    /// Height in pixels
    pub height: u32,
    /// Number of mip levels
    pub mip_levels: u32,
    /// Texture path or identifier
    pub path: String,
}

impl Default for Texture2D {
    fn default() -> (r: Self)
        ensures
            r.width == 0,
            r.height == 0,
            r.mip_levels == 0,
            r.path@ == Seq::<char>::empty(),
    {
        Texture2D { width: 0, height: 0, mip_levels: 0, path: String::new() }
    }
}

/// The textures of an environment map: the skybox and the maps baked from it.
#[derive(Clone, Debug)]
pub struct EnvironmentTextures {
    /// Skybox cube map
    pub skybox: CubeMap,
    /// Diffuse irradiance cube map
    pub irradiance: CubeMap,
    /// Specular prefilter cube map
    pub prefilter: CubeMap,
    /// BRDF lookup texture
    pub brdf_lut: Texture2D,
}

impl EnvironmentTextures {
    /// The textures of an environment loaded from an HDR file: a 1024 skybox
    /// at the path, a 32 irradiance map, a 128 prefilter map with 5 mips and
    /// a 256 BRDF LUT, each named after the path.
    pub fn from_hdr(path: &str) -> (r: Self)
        ensures
            r.skybox.size == 1024 && r.skybox.mip_levels == 1 && r.skybox.path@ == path@,
            r.irradiance.size == 32 && r.irradiance.mip_levels == 1 && r.irradiance.path@ == path@
                + "_irradiance"@,
            r.prefilter.size == 128 && r.prefilter.mip_levels == 5 && r.prefilter.path@ == path@
                + "_prefilter"@,
            r.brdf_lut.width == 256 && r.brdf_lut.height == 256 && r.brdf_lut.mip_levels == 1
                && r.brdf_lut.path@ == path@ + "_brdf_lut"@,
    {
        let mut irradiance_path = String::from_str(path);
        irradiance_path.append("_irradiance");
        let mut prefilter_path = String::from_str(path);
        prefilter_path.append("_prefilter");
        let mut lut_path = String::from_str(path);
        lut_path.append("_brdf_lut");
        EnvironmentTextures {
            skybox: CubeMap { size: 1024, mip_levels: 1, path: String::from_str(path) },
            irradiance: CubeMap { size: 32, mip_levels: 1, path: irradiance_path },
            prefilter: CubeMap { size: 128, mip_levels: 5, path: prefilter_path },
            brdf_lut: Texture2D { width: 256, height: 256, mip_levels: 1, path: lut_path },
        }
    }
}

/// IBL baker: the sizes it bakes irradiance, prefilter and BRDF LUT maps at.
#[derive(Clone, Debug)]
pub struct IBLBaker {
    /// Irradiance map size
    pub irradiance_size: u32,
    /// Prefilter map size
    pub prefilter_size: u32,
    /// Prefilter mip levels
    pub prefilter_mips: u32,
    /// BRDF LUT size
    pub brdf_lut_size: u32,
}

impl Default for IBLBaker {
    fn default() -> (r: Self)
        ensures
            r.irradiance_size == 0,
            r.prefilter_size == 0,
            r.prefilter_mips == 0,
            r.brdf_lut_size == 0,
    {
        IBLBaker { irradiance_size: 0, prefilter_size: 0, prefilter_mips: 0, brdf_lut_size: 0 }
    }
}

/// The smaller of two sizes.
pub open spec fn min_u32(a: u32, b: u32) -> u32 {
    if a <= b {
        a
    } else {
        b
    }
}

/// The largest `k` with `2^k <= n` (0 for `n <= 1`).
pub open spec fn floor_log2(n: nat) -> nat
    decreases n,
{
    if n <= 1 {
        0
    } else {
        1 + floor_log2(n / 2)
    }
}

/// The number of mip levels of a texture of size `n`: one per halving down
/// to a single texel, and one for size zero.
pub open spec fn mip_levels_for(n: nat) -> nat {
    if n == 0 {
        1
    } else {
        floor_log2(n) + 1
    }
}

impl IBLBaker {
    /// A baker with the default sizes (32, 128 with 5 mips, 256)
    pub fn new() -> (r: Self)
        ensures
            r.irradiance_size == 32,
            r.prefilter_size == 128,
            r.prefilter_mips == 5,
            r.brdf_lut_size == 256,
    {
        IBLBaker { irradiance_size: 32, prefilter_size: 128, prefilter_mips: 5, brdf_lut_size: 256 }
    }

    /// The irradiance cube map baked from an environment's skybox
    pub fn bake_irradiance(&self, skybox: &CubeMap) -> (r: CubeMap)
        ensures
            r.size == self.irradiance_size,
            r.mip_levels == 1,
            r.path@ == skybox.path@ + "_irradiance"@,
    {
        let mut path = skybox.path.clone();
        path.append("_irradiance");
        CubeMap { size: self.irradiance_size, mip_levels: 1, path }
    }

    /// The prefilter cube map baked from an environment's skybox, with at most
    /// `levels` mips (and at most the baker's own limit)
    pub fn bake_prefilter(&self, skybox: &CubeMap, levels: u32) -> (r: CubeMap)
        ensures
            r.size == self.prefilter_size,
            r.mip_levels == min_u32(levels, self.prefilter_mips),
            r.path@ == skybox.path@ + "_prefilter"@,
    {
        let mut path = skybox.path.clone();
        path.append("_prefilter");
        let mips = if levels <= self.prefilter_mips { levels } else { self.prefilter_mips };
        CubeMap { size: self.prefilter_size, mip_levels: mips, path }
    }

    /// The BRDF lookup texture: square, at most the baker's LUT size
    pub fn bake_brdf_lut(&self, size: u32) -> (r: Texture2D)
        ensures
            r.width == min_u32(size, self.brdf_lut_size),
            r.height == min_u32(size, self.brdf_lut_size),
            r.mip_levels == 1,
            r.path@ == "brdf_lut"@,
    {
        let s = if size <= self.brdf_lut_size { size } else { self.brdf_lut_size };
        Texture2D { width: s, height: s, mip_levels: 1, path: String::from_str("brdf_lut") }
    }

    /// The number of mip levels for a texture size: floor(log2(size)) + 1,
    /// and 1 for size zero
    pub fn calculate_mip_levels(size: u32) -> (r: u32)
        ensures
            r == mip_levels_for(size as nat),
    {
        if size == 0 {
            return 1;
        }
        let mut v: u32 = size;
        let mut levels: u32 = 1;
        proof {
            lemma_floor_log2_bound(size as nat);
        }
        while v > 1
            invariant
                1 <= v <= size,
                1 <= levels <= 32,
                floor_log2(size as nat) <= 31,
                levels + floor_log2(v as nat) == floor_log2(size as nat) + 1,
            decreases v,
        {
            v = v / 2;
            levels = levels + 1;
        }
        levels
    }
}

/// Two to the power `k`.
pub open spec fn two_pow(k: nat) -> nat
    decreases k,
{
    if k == 0 {
        1
    } else {
        2 * two_pow((k - 1) as nat)
    }
}

proof fn lemma_floor_log2_below(n: nat, k: nat)
    requires
        1 <= n < two_pow(k),
    ensures
        floor_log2(n) < k,
    decreases n,
{
    if n > 1 {
        assert(k > 0);
        lemma_floor_log2_below(n / 2, (k - 1) as nat);
    }
}

proof fn lemma_floor_log2_bound(n: nat)
    requires
        1 <= n <= u32::MAX,
    ensures
        floor_log2(n) <= 31,
{
    reveal_with_fuel(two_pow, 33);
    assert(two_pow(32) == 0x1_0000_0000);
    lemma_floor_log2_below(n, 32);
}

/// A texture of size `n >= 1` gets `L` mip levels exactly when
/// `2^(L-1) <= n < 2^L`: halving it `L - 1` times reaches a single texel.
pub proof fn lemma_mip_levels_halvings(n: nat)
    requires
        n >= 1,
    ensures
        two_pow((mip_levels_for(n) - 1) as nat) <= n < two_pow(mip_levels_for(n)),
    decreases n,
{
    if n > 1 {
        lemma_mip_levels_halvings(n / 2);
        let f = floor_log2(n / 2);
        assert(floor_log2(n) == f + 1);
        assert(two_pow(f + 1) == 2 * two_pow(f));
        assert(two_pow(f + 2) == 2 * two_pow(f + 1));
    } else {
        reveal_with_fuel(two_pow, 2);
    }
}

} // verus!
