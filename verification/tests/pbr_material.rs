use engine::pbr::flags::PbrMaterialFlags;
use engine::pbr::material::{AlphaMode, MaterialFeatures};

#[test]
fn material_features_default_gives_no_flags() {
    let f = MaterialFeatures::default();
    assert_eq!(f.flags().bits(), 0);
    assert!(!f.flags().has_any_texture());
}

#[test]
fn material_features_maps_and_layers() {
    let f = MaterialFeatures {
        has_albedo_map: true,
        has_normal_map: true,
        clear_coat: true,
        sheen: true,
        ..MaterialFeatures::default()
    };
    let flags = f.flags();
    assert_eq!(flags.bits(), 0b0101_0000_0011);
    assert!(flags.contains(PbrMaterialFlags::HAS_ALBEDO_MAP()));
    assert!(flags.contains(PbrMaterialFlags::USE_SHEEN()));
    assert!(!flags.contains(PbrMaterialFlags::USE_ANISOTROPY()));
    assert!(flags.has_any_texture());
}

#[test]
fn material_features_parallax_needs_height_map() {
    let without = MaterialFeatures { parallax: true, ..MaterialFeatures::default() };
    assert!(!without.flags().contains(PbrMaterialFlags::USE_PARALLAX()));
    let with = MaterialFeatures { parallax: true, has_height_map: true, ..MaterialFeatures::default() };
    assert_eq!(with.flags().bits(), (1 << 6) | (1 << 12));
}

#[test]
fn material_features_everything() {
    let f = MaterialFeatures {
        has_albedo_map: true,
        has_normal_map: true,
        has_metallic_map: true,
        has_roughness_map: true,
        has_ao_map: true,
        has_emissive_map: true,
        has_height_map: true,
        clear_coat: true,
        anisotropy: true,
        sheen: true,
        subsurface: true,
        parallax: true,
    };
    assert_eq!(f.flags().bits(), 0x1F7F);
    assert!(!f.flags().contains(PbrMaterialFlags::USE_IBL()));
}

#[test]
fn alpha_mode_default_is_opaque() {
    assert_eq!(AlphaMode::default(), AlphaMode::Opaque);
}

#[test]
fn test_material_flags_empty() {
    let mat = MaterialFeatures::default();
    let flags = mat.flags();
    assert!(!flags.contains(PbrMaterialFlags::HAS_ALBEDO_MAP()));
    assert!(!flags.contains(PbrMaterialFlags::HAS_NORMAL_MAP()));
}

#[test]
fn test_material_flags_with_textures() {
    let albedo_map = Some("albedo.png".to_string());
    let normal_map = Some("normal.png".to_string());
    let mat = MaterialFeatures {
        has_albedo_map: albedo_map.is_some(),
        has_normal_map: normal_map.is_some(),
        ..MaterialFeatures::default()
    };
    let flags = mat.flags();
    assert!(flags.contains(PbrMaterialFlags::HAS_ALBEDO_MAP()));
    assert!(flags.contains(PbrMaterialFlags::HAS_NORMAL_MAP()));
}

#[test]
fn test_material_flags_with_clear_coat() {
    let clear_coat: f32 = 1.0;
    let mat = MaterialFeatures { clear_coat: clear_coat > 0.0, ..MaterialFeatures::default() };
    let flags = mat.flags();
    assert!(flags.contains(PbrMaterialFlags::USE_CLEAR_COAT()));
}
