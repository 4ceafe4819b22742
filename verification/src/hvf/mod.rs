//! Virtual CPUs on hosts with a hypervisor framework.

pub mod error;
pub mod registers;
pub mod vcpu;
