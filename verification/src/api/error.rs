//! Why a configuration was refused.

use vstd::prelude::*;

verus! {

/// A setting that cannot be.
#[derive(Debug)]
pub enum ConfigError {
    /// The number of virtual CPUs.
    InvalidVcpuCount(u8),
    /// The memory size in MiB.
    InvalidMemorySize(usize),
    /// The most virtual CPUs that the VM may grow to.
    InvalidMaxVcpuCount(u8),
    /// The most memory in MiB that the VM may grow to.
    InvalidMaxMemorySize(usize),
    /// The host cannot let the VM grow.
    MaxCapacityUnsupported,
    /// Every virtual CPU needs a host CPU, and no others do.
    InvalidVcpuAffinityLength { expected: usize, actual: usize },
    /// The host cannot pin virtual CPUs.
    VcpuAffinityUnsupported,
    /// The host has no such group of CPUs.
    InvalidHostCpuGroup(u16),
    /// A network device.
    Network(String),
    /// A block device.
    Block(String),
    /// A filesystem.
    Filesystem(String),
}

/// Something that went wrong while the VM was put together.
#[derive(Debug)]
pub enum BuildError {
    /// A device could not be made.
    DeviceRegistration(String),
    /// The VM could not be started.
    Start(String),
}

/// Why no VM was built.
#[derive(Debug)]
pub enum Error {
    Config(ConfigError),
    Build(BuildError),
}

} // verus!
