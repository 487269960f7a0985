use engine::pbr::ibl::{CubeMap, EnvironmentTextures, IBLBaker, Texture2D};

#[test]
fn test_ibl_baker_new() {
    let baker = IBLBaker::new();
    assert_eq!(baker.irradiance_size, 32);
    assert_eq!(baker.prefilter_size, 128);
    assert_eq!(baker.prefilter_mips, 5);
    assert_eq!(baker.brdf_lut_size, 256);
}

#[test]
fn test_ibl_baker_bake_brdf_lut() {
    let baker = IBLBaker::new();
    let lut = baker.bake_brdf_lut(256);
    assert_eq!(lut.width, 256);
    assert_eq!(lut.height, 256);
    assert_eq!(lut.mip_levels, 1);
}

#[test]
fn test_ibl_baker_bake_brdf_lut_non_empty() {
    let baker = IBLBaker::new();
    let lut = baker.bake_brdf_lut(256);
    assert!(lut.width > 0);
    assert!(lut.height > 0);
}

#[test]
fn test_calculate_mip_levels() {
    assert_eq!(IBLBaker::calculate_mip_levels(256), 9);
    assert_eq!(IBLBaker::calculate_mip_levels(128), 8);
    assert_eq!(IBLBaker::calculate_mip_levels(64), 7);
    assert_eq!(IBLBaker::calculate_mip_levels(32), 6);
    assert_eq!(IBLBaker::calculate_mip_levels(1), 1);
    assert_eq!(IBLBaker::calculate_mip_levels(0), 1);
}

#[test]
fn test_ibl_baker_new_defaults() {
    let baker = IBLBaker::new();
    // Check default values
    assert_eq!(baker.irradiance_size, 32);
    assert_eq!(baker.prefilter_size, 128);
    assert_eq!(baker.prefilter_mips, 5);
    assert_eq!(baker.brdf_lut_size, 256);
}

#[test]
fn test_cubemap_default_fields() {
    let cm = CubeMap::default();
    assert_eq!(cm.size, 0);
    assert_eq!(cm.mip_levels, 0);
    assert_eq!(cm.path, "");
}

#[test]
fn test_texture2d_default_fields() {
    let tex = Texture2D::default();
    assert_eq!(tex.width, 0);
    assert_eq!(tex.height, 0);
    assert_eq!(tex.mip_levels, 0);
    assert_eq!(tex.path, "");
}

#[test]
fn test_ibl_baker_bake_brdf_lut_sizes() {
    let baker = IBLBaker::new();
    let lut = baker.bake_brdf_lut(256);
    assert_eq!(lut.width, 256);
    assert_eq!(lut.height, 256);
}

#[test]
fn test_ibl_baker_mip_levels_various_sizes() {
    assert_eq!(IBLBaker::calculate_mip_levels(1), 1);
    assert_eq!(IBLBaker::calculate_mip_levels(2), 2);
    assert_eq!(IBLBaker::calculate_mip_levels(4), 3);
    assert_eq!(IBLBaker::calculate_mip_levels(8), 4);
    assert_eq!(IBLBaker::calculate_mip_levels(64), 7);
    assert_eq!(IBLBaker::calculate_mip_levels(128), 8);
    assert_eq!(IBLBaker::calculate_mip_levels(256), 9);
    assert_eq!(IBLBaker::calculate_mip_levels(512), 10);
    assert_eq!(IBLBaker::calculate_mip_levels(1024), 11);
    assert_eq!(IBLBaker::calculate_mip_levels(2048), 12);
}

#[test]
fn test_ibl_baker_default_clone() {
    let baker1 = IBLBaker::new();
    let baker2 = baker1.clone();
    assert_eq!(baker1.irradiance_size, baker2.irradiance_size);
    assert_eq!(baker1.prefilter_size, baker2.prefilter_size);
    assert_eq!(baker1.prefilter_mips, baker2.prefilter_mips);
    assert_eq!(baker1.brdf_lut_size, baker2.brdf_lut_size);
}

#[test]
fn test_ibl_baker_debug() {
    let baker = IBLBaker::new();
    let _ = format!("{:?}", baker);
}

#[test]
fn test_cubemap_debug() {
    let cm = CubeMap::default();
    let _ = format!("{:?}", cm);
}

#[test]
fn test_texture2d_debug() {
    let tex = Texture2D::default();
    let _ = format!("{:?}", tex);
}

#[test]
fn test_ibl_baker_bake_brdf_lut_non_empty_sizes() {
    let baker = IBLBaker::new();
    let lut = baker.bake_brdf_lut(256);
    assert!(lut.width > 0);
    assert!(lut.height > 0);
}

#[test]
fn environment_textures_from_hdr() {
    let t = EnvironmentTextures::from_hdr("sky.hdr");
    assert_eq!(t.skybox.size, 1024);
    assert_eq!(t.skybox.mip_levels, 1);
    assert_eq!(t.skybox.path, "sky.hdr");
    assert_eq!(t.irradiance.size, 32);
    assert_eq!(t.irradiance.path, "sky.hdr_irradiance");
    assert_eq!(t.prefilter.size, 128);
    assert_eq!(t.prefilter.mip_levels, 5);
    assert_eq!(t.prefilter.path, "sky.hdr_prefilter");
    assert_eq!((t.brdf_lut.width, t.brdf_lut.height, t.brdf_lut.mip_levels), (256, 256, 1));
    assert_eq!(t.brdf_lut.path, "sky.hdr_brdf_lut");
}

#[test]
fn baking_matches_loaded_environment() {
    let t = EnvironmentTextures::from_hdr("test_env.hdr");
    let baker = IBLBaker::new();
    let irr = baker.bake_irradiance(&t.skybox);
    assert_eq!(irr.path, "test_env.hdr_irradiance");
    assert_eq!((irr.size, irr.mip_levels, &irr.path), (t.irradiance.size, t.irradiance.mip_levels, &t.irradiance.path));
    let pre = baker.bake_prefilter(&t.skybox, 8);
    assert_eq!((pre.size, pre.mip_levels, &pre.path), (t.prefilter.size, t.prefilter.mip_levels, &t.prefilter.path));
    let pre3 = baker.bake_prefilter(&t.skybox, 3);
    assert_eq!(pre3.mip_levels, 3);
}
