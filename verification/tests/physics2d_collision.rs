use engine::physics2d::collision::{CollisionFilter, CollisionGroup};

#[test]
fn collision_test_collision_group() {
    let group1 = CollisionGroup::new(0b0001);
    let group2 = CollisionGroup::new(0b0010);
    let group3 = CollisionGroup::new(0b0001 | 0b0010);

    assert!(group1.intersects(&group3));
    assert!(!group1.intersects(&group2));
}

#[test]
fn collision_test_collision_filter() {
    let filter1 = CollisionFilter {
        group: CollisionGroup::new(0b0001),
        mask_a: 0b0001,
        mask_b: 0b0001,
    };

    let filter2 = CollisionFilter {
        group: CollisionGroup::new(0b0001),
        mask_a: 0b0001,
        mask_b: 0b0001,
    };

    let filter3 = CollisionFilter {
        group: CollisionGroup::new(0b0010),
        mask_a: 0b0010,
        mask_b: 0b0010,
    };

    assert!(filter1.should_collide(&filter2));
    assert!(!filter1.should_collide(&filter3));
}

#[test]
fn collision_test_collision_group_new() {
    let group = CollisionGroup::new(0b1010);
    assert_eq!(group.bits(), 0b1010);
}

#[test]
fn test_collision_group_none_all() {
    let none = CollisionGroup::none();
    let all = CollisionGroup::all();
    assert_eq!(none.bits(), 0);
    assert!(all.bits() != 0);
}

#[test]
fn test_collision_group_with_bit_contains() {
    let group = CollisionGroup::new(0).with_bit(3);
    assert!(group.contains(3));
    assert!(!group.contains(2));
}

#[test]
fn test_collision_filter_should_collide_default() {
    let f1 = CollisionFilter::default();
    let f2 = CollisionFilter::default();
    assert!(f1.should_collide(&f2));
}

#[test]
fn test_elastic_collision_energy_conservation() {
    let mass_a: f32 = 1.0;
    let mass_b: f32 = 1.0;
    let velocity_a_initial: f32 = 10.0;
    let velocity_b_initial: f32 = 0.0;

    let velocity_a_final: f32 = velocity_b_initial;
    let velocity_b_final: f32 = velocity_a_initial;

    assert_eq!(velocity_a_final, 0.0);
    assert_eq!(velocity_b_final, 10.0);

    let kinetic_energy_initial =
        0.5 * mass_a * velocity_a_initial.powi(2) + 0.5 * mass_b * velocity_b_initial.powi(2);
    let kinetic_energy_final =
        0.5 * mass_a * velocity_a_final.powi(2) + 0.5 * mass_b * velocity_b_final.powi(2);

    assert!((kinetic_energy_initial - kinetic_energy_final).abs() < 0.001);
}

#[test]
fn test_elastic_collision_momentum_conservation() {
    let mass_a: f32 = 2.0;
    let mass_b: f32 = 3.0;
    let velocity_a_initial: f32 = 5.0;
    let velocity_b_initial: f32 = -2.0;

    let momentum_initial = mass_a * velocity_a_initial + mass_b * velocity_b_initial;

    let total_mass = mass_a + mass_b;
    let velocity_a_final =
        ((mass_a - mass_b) * velocity_a_initial + 2.0 * mass_b * velocity_b_initial) / total_mass;
    let velocity_b_final =
        ((mass_b - mass_a) * velocity_b_initial + 2.0 * mass_a * velocity_a_initial) / total_mass;

    let momentum_final = mass_a * velocity_a_final + mass_b * velocity_b_final;

    assert!((momentum_initial - momentum_final).abs() < 0.001);
}

#[test]
fn test_elastic_collision_energy_conservation_more() {
    let m1 = 2.0_f32;
    let m2 = 3.0_f32;
    let v1 = 4.0_f32;
    let v2 = -1.0_f32;

    let v1_final = ((m1 - m2) * v1 + 2.0 * m2 * v2) / (m1 + m2);
    let v2_final = ((m2 - m1) * v2 + 2.0 * m1 * v1) / (m1 + m2);

    let ke_initial = 0.5 * m1 * v1 * v1 + 0.5 * m2 * v2 * v2;
    let ke_final = 0.5 * m1 * v1_final * v1_final + 0.5 * m2 * v2_final * v2_final;
    assert!((ke_initial - ke_final).abs() < 0.001);
}
