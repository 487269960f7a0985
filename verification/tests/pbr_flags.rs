use engine::pbr::flags::PbrMaterialFlags;

#[test]
fn test_flags_empty() {
    let flags = PbrMaterialFlags::empty();
    assert!(!flags.contains(PbrMaterialFlags::HAS_ALBEDO_MAP()));
    assert!(!flags.contains(PbrMaterialFlags::HAS_NORMAL_MAP()));
}

#[test]
fn test_flags_insert() {
    let mut flags = PbrMaterialFlags::empty();
    flags.insert(PbrMaterialFlags::HAS_ALBEDO_MAP());
    assert!(flags.contains(PbrMaterialFlags::HAS_ALBEDO_MAP()));
    assert!(!flags.contains(PbrMaterialFlags::HAS_NORMAL_MAP()));
}

#[test]
fn test_flags_combine() {
    let flags = PbrMaterialFlags::HAS_ALBEDO_MAP() | PbrMaterialFlags::HAS_NORMAL_MAP();
    assert!(flags.contains(PbrMaterialFlags::HAS_ALBEDO_MAP()));
    assert!(flags.contains(PbrMaterialFlags::HAS_NORMAL_MAP()));
}

#[test]
fn test_flags_remove() {
    let mut flags = PbrMaterialFlags::HAS_ALBEDO_MAP() | PbrMaterialFlags::HAS_NORMAL_MAP();
    flags.remove(PbrMaterialFlags::HAS_ALBEDO_MAP());
    assert!(!flags.contains(PbrMaterialFlags::HAS_ALBEDO_MAP()));
    assert!(flags.contains(PbrMaterialFlags::HAS_NORMAL_MAP()));
}

#[test]
fn test_flags_bits() {
    let flags = PbrMaterialFlags::HAS_ALBEDO_MAP() | PbrMaterialFlags::USE_IBL();
    assert_eq!(flags.bits(), 1 | (1 << 7));
}

#[test]
fn test_flags_from_bits() {
    let flags = PbrMaterialFlags::from_bits(3);
    assert!(flags.contains(PbrMaterialFlags::HAS_ALBEDO_MAP()));
    assert!(flags.contains(PbrMaterialFlags::HAS_NORMAL_MAP()));
}

#[test]
fn test_has_any_texture() {
    let flags = PbrMaterialFlags::HAS_ALBEDO_MAP();
    assert!(flags.has_any_texture());

    let flags = PbrMaterialFlags::USE_IBL();
    assert!(!flags.has_any_texture());
}

#[test]
fn flags_insert_then_remove_restores_other_bits() {
    let mut flags = PbrMaterialFlags::HAS_NORMAL_MAP() | PbrMaterialFlags::USE_IBL();
    let before = flags.bits();
    flags.insert(PbrMaterialFlags::USE_SHEEN());
    assert!(flags.contains(PbrMaterialFlags::USE_SHEEN()));
    flags.remove(PbrMaterialFlags::USE_SHEEN());
    assert!(!flags.contains(PbrMaterialFlags::USE_SHEEN()));
    assert_eq!(flags.bits(), before);
}

#[test]
fn flags_and_or_operators() {
    let a = PbrMaterialFlags::HAS_ALBEDO_MAP() | PbrMaterialFlags::USE_IBL();
    let b = PbrMaterialFlags::USE_IBL() | PbrMaterialFlags::USE_PARALLAX();
    assert_eq!((a & b).bits(), 1 << 7);
    assert_eq!((a | b).bits(), (1 << 0) | (1 << 7) | (1 << 12));
    let mut c = a;
    c |= PbrMaterialFlags::USE_SUBSURFACE();
    assert_eq!(c.bits(), (1 << 0) | (1 << 7) | (1 << 11));
    assert_eq!(PbrMaterialFlags::all().bits(), 0xFFFF);
    assert_eq!(PbrMaterialFlags::from_bits(0xDEAD_BEEF).bits(), 0xDEAD_BEEF);
}
