use engine::pbr::flags::PbrMaterialFlags;
use engine::pbr::permutation::{CachedShader, PermutationCache, ShaderPermutationKey};

#[test]
fn test_permutation_key_default() {
    let key = ShaderPermutationKey::default();
    assert_eq!(key.flags, 0);
    assert_eq!(key.alpha_mode, 0);
    assert_eq!(key.light_count, 1);
    assert!(!key.shadows_enabled);
    assert!(!key.ibl_enabled);
    assert_eq!(key.tonemap_mode, 1);
    assert_eq!(key.cascade_count, 0);
}

#[test]
fn test_permutation_key_new() {
    let key = ShaderPermutationKey::new();
    assert_eq!(key, ShaderPermutationKey::default());
}

#[test]
fn test_permutation_key_from_flags() {
    let flags = PbrMaterialFlags::HAS_ALBEDO_MAP() | PbrMaterialFlags::HAS_NORMAL_MAP();
    let key = ShaderPermutationKey::from_flags(flags);
    assert_eq!(key.flags, flags.bits());
}

#[test]
fn test_permutation_key_builder() {
    let key = ShaderPermutationKey::new()
        .with_flags(PbrMaterialFlags::HAS_ALBEDO_MAP())
        .with_alpha_mode(2)
        .with_light_count(4)
        .with_shadows(true)
        .with_ibl(true)
        .with_tonemap(2)
        .with_cascades(4);

    assert_eq!(key.flags, PbrMaterialFlags::HAS_ALBEDO_MAP().bits());
    assert_eq!(key.alpha_mode, 2);
    assert_eq!(key.light_count, 4);
    assert!(key.shadows_enabled);
    assert!(key.ibl_enabled);
    assert_eq!(key.tonemap_mode, 2);
    assert_eq!(key.cascade_count, 4);
}

#[test]
fn test_permutation_key_hash_consistent() {
    let key1 = ShaderPermutationKey::new().with_flags(PbrMaterialFlags::HAS_ALBEDO_MAP());
    let key2 = ShaderPermutationKey::new().with_flags(PbrMaterialFlags::HAS_ALBEDO_MAP());
    assert_eq!(key1.hash(), key2.hash());
}

#[test]
fn test_permutation_key_hash_different() {
    let key1 = ShaderPermutationKey::new().with_flags(PbrMaterialFlags::HAS_ALBEDO_MAP());
    let key2 = ShaderPermutationKey::new().with_flags(PbrMaterialFlags::HAS_NORMAL_MAP());
    assert_ne!(key1.hash(), key2.hash());
}

#[test]
fn test_permutation_key_hash_different_alpha() {
    let key1 = ShaderPermutationKey::new().with_alpha_mode(0);
    let key2 = ShaderPermutationKey::new().with_alpha_mode(1);
    assert_ne!(key1.hash(), key2.hash());
}

#[test]
fn test_permutation_key_has_textures() {
    let key_with = ShaderPermutationKey::from_flags(PbrMaterialFlags::HAS_ALBEDO_MAP());
    let key_without = ShaderPermutationKey::new();
    assert!(key_with.has_textures());
    assert!(!key_without.has_textures());
}

#[test]
fn test_permutation_key_uses_ibl() {
    let key1 = ShaderPermutationKey::new().with_ibl(true);
    let key2 = ShaderPermutationKey::from_flags(PbrMaterialFlags::USE_IBL());
    let key3 = ShaderPermutationKey::new();
    assert!(key1.uses_ibl());
    assert!(key2.uses_ibl());
    assert!(!key3.uses_ibl());
}

#[test]
fn test_permutation_key_uses_shadows() {
    let key1 = ShaderPermutationKey::new().with_shadows(true);
    let key2 = ShaderPermutationKey::new();
    assert!(key1.uses_shadows());
    assert!(!key2.uses_shadows());
}

#[test]
fn test_permutation_key_flags_getter() {
    let flags = PbrMaterialFlags::HAS_ALBEDO_MAP() | PbrMaterialFlags::USE_IBL();
    let key = ShaderPermutationKey::from_flags(flags);
    assert_eq!(key.flags(), flags);
}

#[test]
fn test_permutation_key_describe() {
    let key = ShaderPermutationKey::new()
        .with_flags(PbrMaterialFlags::HAS_ALBEDO_MAP())
        .with_alpha_mode(0)
        .with_light_count(2)
        .with_shadows(true)
        .with_cascades(4)
        .with_ibl(true)
        .with_tonemap(1);

    let desc = key.describe();
    assert!(desc.contains("AlbedoMap"));
    assert!(desc.contains("Opaque"));
    assert!(desc.contains("Lights:2"));
    assert!(desc.contains("CSM:4"));
    assert!(desc.contains("IBL"));
    assert!(desc.contains("TonemapACES"));
}

#[test]
fn test_permutation_key_describe_empty() {
    let key = ShaderPermutationKey::new();
    let desc = key.describe();
    assert!(desc.contains("Opaque"));
    assert!(desc.contains("Lights:1"));
}

#[test]
fn test_permutation_key_eq() {
    let key1 = ShaderPermutationKey::new().with_flags(PbrMaterialFlags::HAS_ALBEDO_MAP());
    let key2 = ShaderPermutationKey::new().with_flags(PbrMaterialFlags::HAS_ALBEDO_MAP());
    let key3 = ShaderPermutationKey::new().with_flags(PbrMaterialFlags::HAS_NORMAL_MAP());
    assert_eq!(key1, key2);
    assert_ne!(key1, key3);
}

#[test]
fn test_permutation_key_clone() {
    let key1 = ShaderPermutationKey::new().with_flags(PbrMaterialFlags::HAS_ALBEDO_MAP());
    let key2 = key1;
    assert_eq!(key1, key2);
}

#[test]
fn test_permutation_key_copy() {
    let key1 = ShaderPermutationKey::new().with_flags(PbrMaterialFlags::HAS_ALBEDO_MAP());
    let key2 = key1; // Copy
    assert_eq!(key1, key2);
}

#[test]
fn test_cached_shader_new() {
    let key = ShaderPermutationKey::new();
    let shader = CachedShader::new(key, "vertex code", "fragment code");
    assert_eq!(shader.vertex_source, "vertex code");
    assert_eq!(shader.fragment_source, "fragment code");
    assert_eq!(shader.ref_count, 1);
    assert!(shader.source_hash > 0);
}

#[test]
fn test_cached_shader_add_ref() {
    let key = ShaderPermutationKey::new();
    let mut shader = CachedShader::new(key, "v", "f");
    assert_eq!(shader.ref_count, 1);
    shader.add_ref();
    assert_eq!(shader.ref_count, 2);
}

#[test]
fn test_cached_shader_release() {
    let key = ShaderPermutationKey::new();
    let mut shader = CachedShader::new(key, "v", "f");
    assert!(shader.release()); // 1 -> 0, returns true when reaches 0
    assert_eq!(shader.ref_count, 0);
}

#[test]
fn test_cached_shader_release_multiple() {
    let key = ShaderPermutationKey::new();
    let mut shader = CachedShader::new(key, "v", "f");
    shader.add_ref();
    shader.add_ref();
    assert_eq!(shader.ref_count, 3);
    assert!(!shader.release()); // 3 -> 2
    assert!(!shader.release()); // 2 -> 1
    assert!(shader.release()); // 1 -> 0, returns true
}

#[test]
fn test_cached_shader_release_below_zero() {
    let key = ShaderPermutationKey::new();
    let mut shader = CachedShader::new(key, "v", "f");
    shader.release(); // 1 -> 0
    shader.release(); // already 0, should stay 0
    assert_eq!(shader.ref_count, 0);
}

#[test]
fn test_cached_shader_source_hash_consistent() {
    let key = ShaderPermutationKey::new();
    let shader1 = CachedShader::new(key, "vertex", "fragment");
    let shader2 = CachedShader::new(key, "vertex", "fragment");
    assert_eq!(shader1.source_hash, shader2.source_hash);
}

#[test]
fn test_cached_shader_source_hash_different() {
    let key = ShaderPermutationKey::new();
    let shader1 = CachedShader::new(key, "vertex1", "fragment");
    let shader2 = CachedShader::new(key, "vertex2", "fragment");
    assert_ne!(shader1.source_hash, shader2.source_hash);
}

#[test]
fn test_permutation_cache_new() {
    let cache = PermutationCache::new();
    assert_eq!(cache.len(), 0);
    assert!(cache.is_empty());
    assert_eq!(cache.cache_hits(), 0);
    assert_eq!(cache.cache_misses(), 0);
}

#[test]
fn test_permutation_cache_insert_get() {
    let mut cache = PermutationCache::new();
    let key = ShaderPermutationKey::new().with_flags(PbrMaterialFlags::HAS_ALBEDO_MAP());
    let shader = CachedShader::new(key, "vertex", "fragment");

    cache.insert(shader);
    assert_eq!(cache.len(), 1);

    let result = cache.get(&key);
    assert!(result.is_some());
    assert_eq!(cache.cache_hits(), 1);
}

#[test]
fn test_permutation_cache_miss() {
    let mut cache = PermutationCache::new();
    let key = ShaderPermutationKey::new();

    let result = cache.get(&key);
    assert!(result.is_none());
    assert_eq!(cache.cache_misses(), 1);
}

#[test]
fn test_permutation_cache_remove() {
    let mut cache = PermutationCache::new();
    let key = ShaderPermutationKey::new();
    cache.insert(CachedShader::new(key, "v", "f"));

    let removed = cache.remove(&key);
    assert!(removed.is_some());
    assert_eq!(cache.len(), 0);
}

#[test]
fn test_permutation_cache_remove_nonexistent() {
    let mut cache = PermutationCache::new();
    let key = ShaderPermutationKey::new();
    let removed = cache.remove(&key);
    assert!(removed.is_none());
}

#[test]
fn test_permutation_cache_release() {
    let mut cache = PermutationCache::new();
    let key = ShaderPermutationKey::new();
    cache.insert(CachedShader::new(key, "v", "f"));

    // Get adds a reference (ref_count = 2)
    cache.get(&key);
    // Release one (ref_count = 1, not removed)
    cache.release(&key);
    assert_eq!(cache.len(), 1);

    // Release again (ref_count = 0, removed)
    cache.release(&key);
    assert_eq!(cache.len(), 0);
}

#[test]
fn test_permutation_cache_clear() {
    let mut cache = PermutationCache::new();
    cache.insert(CachedShader::new(ShaderPermutationKey::new(), "v", "f"));
    cache.insert(CachedShader::new(
        ShaderPermutationKey::new().with_flags(PbrMaterialFlags::HAS_ALBEDO_MAP()),
        "v2",
        "f2",
    ));
    assert_eq!(cache.len(), 2);

    cache.clear();
    assert_eq!(cache.len(), 0);
}

#[test]
fn test_permutation_cache_contains() {
    let mut cache = PermutationCache::new();
    let key = ShaderPermutationKey::new();
    cache.insert(CachedShader::new(key, "v", "f"));

    assert!(cache.contains(&key));
    assert!(!cache.contains(&ShaderPermutationKey::new().with_flags(PbrMaterialFlags::HAS_NORMAL_MAP())));
}

#[test]
fn test_permutation_cache_reset_stats() {
    let mut cache = PermutationCache::new();
    let key = ShaderPermutationKey::new();
    cache.insert(CachedShader::new(key, "v", "f"));
    cache.get(&key);
    cache.get(&ShaderPermutationKey::new().with_flags(PbrMaterialFlags::HAS_NORMAL_MAP()));

    cache.reset_stats();
    assert_eq!(cache.cache_hits(), 0);
    assert_eq!(cache.cache_misses(), 0);
}

#[test]
fn test_permutation_cache_with_capacity_eviction() {
    let mut cache = PermutationCache::with_capacity(2);

    let key1 = ShaderPermutationKey::new();
    let key2 = ShaderPermutationKey::new().with_flags(PbrMaterialFlags::HAS_ALBEDO_MAP());
    let key3 = ShaderPermutationKey::new().with_flags(PbrMaterialFlags::HAS_NORMAL_MAP());

    cache.insert(CachedShader::new(key1, "v1", "f1"));
    cache.insert(CachedShader::new(key2, "v2", "f2"));
    assert_eq!(cache.len(), 2);

    // Inserting a third should evict one (key1 has lowest ref_count since we never got it)
    cache.insert(CachedShader::new(key3, "v3", "f3"));
    assert_eq!(cache.len(), 2);
}

#[test]
fn test_permutation_cache_keys() {
    let mut cache = PermutationCache::new();
    let key1 = ShaderPermutationKey::new();
    let key2 = ShaderPermutationKey::new().with_flags(PbrMaterialFlags::HAS_ALBEDO_MAP());

    cache.insert(CachedShader::new(key1, "v1", "f1"));
    cache.insert(CachedShader::new(key2, "v2", "f2"));

    let keys = cache.keys();
    assert_eq!(keys.len(), 2);
}

#[test]
fn test_permutation_cache_clone() {
    let mut cache = PermutationCache::new();
    cache.insert(CachedShader::new(ShaderPermutationKey::new(), "v", "f"));

    let cache2 = cache.clone();
    assert_eq!(cache.len(), cache2.len());
}

#[test]
fn test_permutation_key_hash_all_fields() {
    // Verify that changing each field changes the hash
    let base = ShaderPermutationKey::new();

    let variants = [
        ShaderPermutationKey::new().with_flags(PbrMaterialFlags::HAS_ALBEDO_MAP()),
        ShaderPermutationKey::new().with_alpha_mode(1),
        ShaderPermutationKey::new().with_light_count(2),
        ShaderPermutationKey::new().with_shadows(true),
        ShaderPermutationKey::new().with_ibl(true),
        ShaderPermutationKey::new().with_tonemap(2),
        ShaderPermutationKey::new().with_cascades(4),
    ];

    let base_hash = base.hash();
    for variant in &variants {
        assert_ne!(base_hash, variant.hash(), "Hash should differ for variant");
    }
}

#[test]
fn test_permutation_key_describe_all_alpha_modes() {
    let key_opaque = ShaderPermutationKey::new().with_alpha_mode(0);
    let key_mask = ShaderPermutationKey::new().with_alpha_mode(1);
    let key_blend = ShaderPermutationKey::new().with_alpha_mode(2);

    assert!(key_opaque.describe().contains("Opaque"));
    assert!(key_mask.describe().contains("Mask"));
    assert!(key_blend.describe().contains("Blend"));
}

#[test]
fn test_permutation_key_describe_all_tonemaps() {
    assert!(ShaderPermutationKey::new().with_tonemap(0).describe().contains("TonemapNone"));
    assert!(ShaderPermutationKey::new().with_tonemap(1).describe().contains("TonemapACES"));
    assert!(ShaderPermutationKey::new().with_tonemap(2).describe().contains("TonemapReinhard"));
    assert!(ShaderPermutationKey::new().with_tonemap(3).describe().contains("TonemapFilmic"));
}

#[test]
fn permutation_key_describe_exact_text() {
    let key = ShaderPermutationKey::new()
        .with_flags(PbrMaterialFlags::HAS_ALBEDO_MAP())
        .with_alpha_mode(0)
        .with_light_count(2)
        .with_shadows(true)
        .with_cascades(4)
        .with_ibl(true)
        .with_tonemap(1);
    assert_eq!(key.describe(), "AlbedoMap|Opaque|Lights:2|CSM:4|IBL|TonemapACES");
    assert_eq!(ShaderPermutationKey::new().describe(), "Opaque|Lights:1|TonemapACES");
    let odd = ShaderPermutationKey::new()
        .with_flags(PbrMaterialFlags::HAS_NORMAL_MAP() | PbrMaterialFlags::HAS_HEIGHT_MAP())
        .with_alpha_mode(9)
        .with_light_count(255)
        .with_tonemap(7);
    assert_eq!(odd.describe(), "NormalMap|HeightMap|UnknownAlpha|Lights:255");
}

#[test]
fn permutation_cache_insert_then_get_returns_it() {
    let mut cache = PermutationCache::new();
    let key = ShaderPermutationKey::new().with_light_count(3);
    cache.insert(CachedShader::new(key, "vs", "fs"));
    let got = cache.get(&key).unwrap();
    assert_eq!(got.key, key);
    assert_eq!(got.vertex_source, "vs");
    assert_eq!(got.ref_count, 2);
    assert_eq!(cache.cache_hits(), 1);
    assert_eq!(cache.cache_misses(), 0);
    assert!(cache.get(&ShaderPermutationKey::new()).is_none());
    assert_eq!(cache.cache_misses(), 1);
}

#[test]
fn permutation_cache_eviction_keeps_within_capacity() {
    let mut cache = PermutationCache::with_capacity(2);
    let k1 = ShaderPermutationKey::new().with_light_count(1);
    let k2 = ShaderPermutationKey::new().with_light_count(2);
    let k3 = ShaderPermutationKey::new().with_light_count(3);
    cache.insert(CachedShader::new(k1, "a", "a"));
    cache.insert(CachedShader::new(k2, "b", "b"));
    cache.get(&k1);
    cache.insert(CachedShader::new(k3, "c", "c"));
    assert_eq!(cache.len(), 2);
    assert!(cache.contains(&k1));
    assert!(!cache.contains(&k2));
    assert!(cache.contains(&k3));
}

#[test]
fn permutation_cache_release_to_zero_removes_entry() {
    let mut cache = PermutationCache::new();
    let key = ShaderPermutationKey::new();
    cache.insert(CachedShader::new(key, "v", "f"));
    cache.get(&key);
    cache.release(&key);
    assert!(cache.contains(&key));
    cache.release(&key);
    assert!(!cache.contains(&key));
    assert!(cache.is_empty());
}
