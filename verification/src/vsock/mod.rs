//! The virtio socket device.

pub mod backend;
pub mod dgram;
pub mod packet;
