//! The virtio block device.

pub mod buffers;
pub mod device;
pub mod pending;
pub mod raw;
pub mod request;
pub mod ring;
pub mod ring_worker;
pub mod windows;
pub mod worker;
pub mod writeback;
