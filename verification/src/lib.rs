//! Device models and configuration rules of a microVM monitor.

pub mod activation;
pub mod api;
pub mod balloon;
pub mod block;
pub mod bytes;
pub mod config_space;
pub mod cpu;
pub mod descriptor;
pub mod epoll;
pub mod eventfd;
pub mod fs;
pub mod guest_memory;
pub mod host;
pub mod hvf;
pub mod layout;
pub mod metrics;
pub mod msb_metrics;
pub mod net;
pub mod pci;
pub mod performance;
pub mod text;
pub mod vfio_pci;
pub mod vsock;
