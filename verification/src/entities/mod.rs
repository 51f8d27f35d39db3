//! Entity kinds: particles, props and vehicles.

pub mod particles;
pub mod props;
pub mod vehicle_types;
