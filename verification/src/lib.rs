//! Verified core of a binding to a native virtual-reality runtime: the
//! decoding of the runtime's event records and the typed values that the
//! binding hands to its callers.

use vstd::prelude::*;

pub mod c_string;
pub mod chaperone_setup;
pub mod compositor;
pub mod errors;
pub mod input;
pub mod little_endian;
pub mod system;

verus! {

/// Identifies a tracked device in the runtime's device table.
#[derive(Debug, Clone, Copy, PartialEq, Eq, Structural)]
pub struct TrackedDeviceIndex(pub u32);

} // verus!
