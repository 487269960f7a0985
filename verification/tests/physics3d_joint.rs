use engine::physics3d::joint::JointHandle;

#[test]
fn test_joint_handle() {
    let handle = JointHandle::new(0, 0);
    assert!(handle.is_valid());
    assert!(!JointHandle::INVALID().is_valid());
}
