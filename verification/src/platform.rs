//! The platform identifier handed in by the environment probe.

use vstd::prelude::*;

verus! {

/// The OS family a scan runs on; detection itself is the caller's concern.
#[derive(Debug, Clone, Copy, PartialEq, Eq, Structural)]
pub enum Platform {
    MacOS,
    Linux,
    Windows,
    Unknown,
}

} // verus!
