//! Per-entity publish/subscribe nodes, one kind per simulator actor kind.

pub mod generic;
pub mod odom;
pub mod other;
pub mod sensor;
pub mod traffic_light;
pub mod traffic_sign;
pub mod vehicle;
