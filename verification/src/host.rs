//! The system that the monitor runs on.

use vstd::prelude::*;

verus! {

/// The host systems that differ in what they offer.
#[derive(Clone, Copy, Debug, PartialEq, Eq, Structural)]
pub enum HostOs {
    Linux,
    Macos,
    Windows,
    Other,
}

} // verus!
