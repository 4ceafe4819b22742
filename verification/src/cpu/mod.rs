//! The device through which the guest brings virtual CPUs online and takes them offline.

pub mod device;
