use engine::physics2d::world::WorldIndex;

#[test]
fn world_test_physics_world_creation() {
    let world = WorldIndex::new();
    assert_eq!(world.body_count(), 0);
    assert_eq!(world.collider_count(), 0);
    assert!(world.collision_pairs().is_empty());
}

#[test]
fn world_test_add_body() {
    let mut world = WorldIndex::new();
    let index = world.add_body();
    assert_eq!(index, 0);
    assert_eq!(world.body_count(), 1);
}

#[test]
fn world_test_remove_body() {
    let mut world = WorldIndex::new();
    world.add_body();
    world.remove_body(0);
    assert_eq!(world.body_count(), 0);
}

#[test]
fn test_remove_body_cleans_up_colliders() {
    let mut world = WorldIndex::new();
    let body_index = world.add_body();
    world.add_collider(body_index);

    assert_eq!(world.body_count(), 1);
    assert_eq!(world.collider_count(), 1);

    world.remove_body(body_index);

    assert_eq!(world.body_count(), 0);
    assert_eq!(world.collider_count(), 0);
}

#[test]
fn test_remove_collider_updates_body_indices() {
    let mut world = WorldIndex::new();
    let body_index = world.add_body();
    let collider1_index = world.add_collider(body_index);
    world.add_collider(body_index);

    assert_eq!(collider1_index, 0);

    world.remove_collider(collider1_index);

    let body = world.collider_indices(body_index);
    assert!(body.is_some());
    assert_eq!(body.unwrap(), &[0]);
}

#[test]
fn world_index_remove_body_hands_back_positions_highest_first() {
    let mut world = WorldIndex::new();
    let a = world.add_body();
    let b = world.add_body();
    world.add_collider(a);
    world.add_collider(b);
    world.add_collider(a);
    world.add_collider(a);
    world.add_collider(b);
    assert_eq!(world.collider_indices(a).unwrap(), &[0, 2, 3]);
    assert_eq!(world.remove_body(a), vec![3, 2, 0]);
    assert_eq!(world.collider_count(), 2);
    assert_eq!(world.body_count(), 1);
    // the other body's indices are left as they were
    assert_eq!(world.collider_indices(0).unwrap(), &[1, 4]);
    assert_eq!(world.remove_body(5), Vec::<usize>::new());
}

#[test]
fn world_index_remove_collider_shifts_every_body_and_prunes_pairs() {
    let mut world = WorldIndex::new();
    let a = world.add_body();
    let b = world.add_body();
    world.add_collider(a);
    world.add_collider(b);
    world.add_collider(a);
    world.add_collision_pair(0, 2);
    world.add_collision_pair(0, 1);
    world.remove_collider(1);
    assert_eq!(world.collider_indices(a).unwrap(), &[0, 1]);
    assert!(world.collider_indices(b).unwrap().is_empty());
    assert_eq!(world.collider_count(), 2);
    assert_eq!(world.collision_pairs(), &[(0, 1)]);
    world.remove_collider(7);
    assert_eq!(world.collider_count(), 2);
}

#[test]
fn world_index_collider_for_missing_body_is_unattached() {
    let mut world = WorldIndex::new();
    assert_eq!(world.add_collider(3), 0);
    assert_eq!(world.collider_count(), 1);
    assert!(world.collider_indices(3).is_none());
    world.clear_collision_pairs();
    assert!(world.collision_pairs().is_empty());
}
