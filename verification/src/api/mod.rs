//! The configuration of a microVM.

pub mod builder;
pub mod builders;
pub mod command;
pub mod error;
pub mod smoke;
