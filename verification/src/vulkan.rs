//! The pure parts of the graphics-layer boundary.
//!
//! The graphics layer itself (instance creation, device enumeration) is a
//! thin unsafe call sequence that lives with the host binary; this module
//! holds the values that cross its boundary and can be stated exactly:
//! the packed API version number and the decoded device properties.

use vstd::prelude::*;

verus! {

/// Packs an API version from its four components, low twelve bits the
/// patch, then ten bits of minor, seven of major, three of variant.
pub fn make_api_version(variant: u32, major: u32, minor: u32, patch: u32) -> (version: u32)
    ensures
        version == (variant << 29u32) | (major << 22u32) | (minor << 12u32) | patch,
{
    (variant << 29u32) | (major << 22u32) | (minor << 12u32) | patch
}

/// The properties of a physical graphics device that the host reads back
/// after enumeration: currently only the device's advertised name.
pub struct PhysicalDeviceProperties {
    pub device_name: String,
}

} // verus!
