//! Platform-independent parameters for creating a new TUN/TAP device.

use vstd::prelude::*;

verus! {

/// The platform-independent core of a device-creation request: the
/// requested interface name, if any, and the device-kind flags.
pub struct Params {
    /// The requested interface name; the kernel assigns one if absent.
    pub name: Option<String>,
    /// The device-kind and packet-information flags for creation.
    pub flags: i16,
}

} // verus!
