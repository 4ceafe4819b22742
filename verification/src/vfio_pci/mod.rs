//! Passing physical PCI devices through to the guest.

pub mod device;
pub mod msix;
pub mod vfio;
