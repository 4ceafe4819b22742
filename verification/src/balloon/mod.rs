//! The memory balloon device.

pub mod device;
pub mod events;
