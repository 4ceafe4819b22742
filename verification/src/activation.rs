//! How the guest's set-up of a device ends.

use vstd::prelude::*;

verus! {

/// The activation of a device was refused.
#[derive(Clone, Copy, Debug, PartialEq, Eq, Structural)]
pub enum ActivateError {
    BadActivate,
}

} // verus!
