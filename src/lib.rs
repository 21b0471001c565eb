//! Operating-system utilities behind a C-callable surface: the verified core.
//!
//! The library decides everything that does not need the operating system:
//! how borrowed strings and vectors are read, how results are copied into
//! caller buffers, which process a name selects, which power call a request
//! means, and which sentinel each outcome maps to.
use vstd::prelude::*;

pub mod boundary;
pub mod clock;
pub mod digest;
pub mod error;
pub mod instance;
pub mod launch;
pub mod laws;
pub mod power;
pub mod terminate;

verus! {

/// Lock keys whose state the library can read or set.
#[allow(non_camel_case_types)]
#[derive(Clone, Copy, Debug, PartialEq, Eq, Structural)]
pub enum DU_LOCKKEY {
    DU_LK_CAPSLOCK,
    DU_LK_NUMLOCK,
    DU_LK_SCROLLLOCK,
}

} // verus!
