use engine::physics3d::{CollisionGroups, CombineRule, EntityHandle};

#[test]
fn lib_test_collision_groups() {
    let group1 = CollisionGroups::new(0x0001, 0xFFFF);
    let group2 = CollisionGroups::new(0x0002, 0xFFFF);
    let group3 = CollisionGroups::new(0x0001, 0x0001);

    assert!(group1.can_collide_with(&group2));
    assert!(group2.can_collide_with(&group1));
    assert!(group1.can_collide_with(&group3));
    assert!(!group3.can_collide_with(&group2));
}

#[test]
fn test_entity_handle() {
    let handle = EntityHandle::new(0, 0);
    assert!(handle.is_valid());
    assert!(!EntityHandle::INVALID().is_valid());
}

#[test]
fn test_combine_rule() {
    assert_eq!(CombineRule::default(), CombineRule::Average);
}
