//! A directory of the host that the guest sees as a filesystem.

pub mod attributes;
pub mod passthrough;
