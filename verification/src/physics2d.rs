//! 2D physics: collision groups and filters, body and joint kinds, the
//! collider indices of a body and the index bookkeeping of a world, query
//! filters.

pub mod collision;
pub mod collision_group;
pub mod joint;
pub mod rigidbody;
pub mod world;
