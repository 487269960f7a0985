use engine::physics3d::query::{Query3D, QueryFilter};
use engine::physics3d::CollisionGroups;

#[test]
fn test_query_filter() {
    let filter = QueryFilter::new();
    assert_eq!(filter.groups, CollisionGroups::ALL());
    assert!(!filter.exclude_sensors);
}

#[test]
fn test_query_filter_only_dynamic() {
    let filter = QueryFilter::only_dynamic();
    assert!(filter.exclude_static);
    assert!(filter.exclude_fixed);
    assert!(filter.exclude_kinematic);
}

#[test]
fn test_query_filter_exclude_sensors() {
    let filter = QueryFilter::exclude_sensors();
    assert!(filter.exclude_sensors);
}

#[test]
fn test_query3d_creation() {
    let query = Query3D::new();
    assert!(!query.query_pipeline.updated);
    // 更新后应该为true
    let mut query = Query3D::new();
    query.query_pipeline.update();
    assert!(query.query_pipeline.updated);
}
