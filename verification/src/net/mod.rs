//! The virtio network device.

pub mod backend;
pub mod device;
pub mod flow;
pub mod namedpipe;
pub mod worker;
