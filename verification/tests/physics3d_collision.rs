use engine::physics3d::collider::ColliderHandle;
use engine::physics3d::collision::{CollisionFilter3D, CollisionGroup3D, ContactEvent, IntersectionEvent};

#[test]
fn test_contact_event() {
    let event = ContactEvent::Started(ColliderHandle::new(0, 0), ColliderHandle::new(1, 0));
    assert!(event.is_started());
    assert!(!event.is_stopped());
}

#[test]
fn test_intersection_event() {
    let event = IntersectionEvent::Stopped(ColliderHandle::new(0, 0), ColliderHandle::new(1, 0));
    assert_eq!(event.collider_a(), ColliderHandle::new(0, 0));
    assert_eq!(event.collider_b(), ColliderHandle::new(1, 0));
}

#[test]
fn collision3d_test_collision_group() {
    let group1 = CollisionGroup3D::new(0b0001);
    let group2 = CollisionGroup3D::new(0b0010);
    let group3 = CollisionGroup3D::new(0b0001 | 0b0010);

    assert!(group1.intersects(&group3));
    assert!(!group1.intersects(&group2));
}

#[test]
fn collision3d_test_collision_filter() {
    let filter1 = CollisionFilter3D {
        group: CollisionGroup3D::new(0b0001),
        mask_a: 0b0001,
        mask_b: 0b0001,
    };

    let filter2 = CollisionFilter3D {
        group: CollisionGroup3D::new(0b0001),
        mask_a: 0b0001,
        mask_b: 0b0001,
    };

    let filter3 = CollisionFilter3D {
        group: CollisionGroup3D::new(0b0010),
        mask_a: 0b0010,
        mask_b: 0b0010,
    };

    assert!(filter1.should_collide(&filter2));
    assert!(!filter1.should_collide(&filter3));
}
