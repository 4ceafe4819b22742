//! The PCIe host bridge.

pub mod bus;
pub mod device;
pub mod root_port;
