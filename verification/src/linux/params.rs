//! Parameters for creating a new TUN/TAP device on Linux.

use crate::address::EthernetAddr;
use crate::linux::address::Ipv4Addr;
use vstd::prelude::*;

verus! {

/// Everything the device allocator needs to open, attach, and configure a
/// new TUN/TAP interface.  Built once by the builder and consumed exactly
/// once by the allocator.
pub struct Params {
    /// The requested interface name; the kernel assigns one if absent.
    pub name: Option<String>,
    /// The device-kind and packet-information flags for creation.
    pub flags: i16,
    /// Whether the interface survives closure of its descriptors.
    pub persist: bool,
    /// Whether to bring the interface up, as the last configuration step.
    pub up: bool,
    /// The maximum transmission unit to set, if any.
    pub mtu: Option<i32>,
    /// The owning user id to set, if any.
    pub owner: Option<i32>,
    /// The owning group id to set, if any.
    pub group: Option<i32>,
    /// The IPv4 address to set, if any.
    pub address: Option<Ipv4Addr>,
    /// The IPv4 point-to-point destination to set, if any.
    pub destination: Option<Ipv4Addr>,
    /// The IPv4 broadcast address to set, if any.
    pub broadcast: Option<Ipv4Addr>,
    /// The IPv4 netmask to set, if any.
    pub netmask: Option<Ipv4Addr>,
    /// The hardware address carried for TAP-mode use, if any.
    pub mac: Option<EthernetAddr>,
}

} // verus!
