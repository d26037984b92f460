//! A fluent factory for TUN/TAP device parameters.

use crate::address::EthernetAddr;
use crate::linux::address::Ipv4Addr;
use crate::linux::params::Params;
use crate::linux::request::{IFF_NO_PI, IFF_TAP, IFF_TUN};
use vstd::prelude::*;

verus! {

/// A factory that gathers the desired configuration of a device.  Every
/// method is a pure functional update; nothing happens until the
/// parameters are handed to the device allocator.
pub struct TunBuilder<'a> {
    /// The device name; empty means the kernel assigns one.
    pub name: &'a str,
    /// Whether to allocate a TAP device instead of a TUN device.
    pub is_tap: bool,
    /// Whether packets carry the packet-information header.
    pub packet_info: bool,
    /// Whether to make the interface persistent.
    pub persist: bool,
    /// Whether to bring the interface up after configuration.
    pub up: bool,
    /// The maximum transmission unit, if one is to be set.
    pub mtu: Option<i32>,
    /// The owning user id, if one is to be set.
    pub owner: Option<i32>,
    /// The owning group id, if one is to be set.
    pub group: Option<i32>,
    /// The IPv4 address, if one is to be set.
    pub address: Option<Ipv4Addr>,
    /// The IPv4 point-to-point destination, if one is to be set.
    pub destination: Option<Ipv4Addr>,
    /// The IPv4 broadcast address, if one is to be set.
    pub broadcast: Option<Ipv4Addr>,
    /// The IPv4 netmask, if one is to be set.
    pub netmask: Option<Ipv4Addr>,
    /// The hardware address, if one is to be set (TAP mode).
    pub mac: Option<EthernetAddr>,
}

/// The default builder state: kernel-assigned name, TUN device with the
/// packet-information header, nothing else configured.
pub open spec fn default_builder_spec(b: TunBuilder<'_>) -> bool {
    &&& b.name@.len() == 0
    &&& b.is_tap == false
    &&& b.packet_info == true
    &&& b.persist == false
    &&& b.up == false
    &&& b.mtu is None
    &&& b.owner is None
    &&& b.group is None
    &&& b.address is None
    &&& b.destination is None
    &&& b.broadcast is None
    &&& b.netmask is None
    &&& b.mac is None
}

impl<'a> Default for TunBuilder<'a> {
    fn default() -> (r: Self)
        ensures
            default_builder_spec(r),
    {
        proof {
            reveal_strlit("");
        }
        TunBuilder {
            name: "",
            owner: None,
            group: None,
            is_tap: false,
            persist: false,
            up: false,
            mtu: None,
            packet_info: true,
            address: None,
            destination: None,
            broadcast: None,
            netmask: None,
            mac: None,
        }
    }
}

/// The device-kind flag word derived from the builder's choices: TAP or
/// TUN, with the no-packet-information bit when the header is disabled.
pub open spec fn build_flags_spec(is_tap: bool, packet_info: bool) -> i16 {
    if packet_info {
        if is_tap {
            IFF_TAP
        } else {
            IFF_TUN
        }
    } else {
        (if is_tap {
            IFF_TAP
        } else {
            IFF_TUN
        }) | IFF_NO_PI
    }
}

impl<'a> TunBuilder<'a> {
    /// Creates a builder in its default state.
    pub fn new() -> (r: Self)
        ensures
            default_builder_spec(r),
    {
        Default::default()
    }

    /// Sets the name of the device (at most 16 bytes; longer names are
    /// truncated by the kernel).  An empty name asks the kernel to assign
    /// one.  Default: empty.
    pub fn name(self, name: &'a str) -> (r: Self)
        ensures
            r == (Self { name, ..self }),
    {
        Self { name, ..self }
    }

    /// Chooses a TAP device when true, a TUN device when false.  Default:
    /// false.
    pub fn tap(self, is_tap: bool) -> (r: Self)
        ensures
            r == (Self { is_tap, ..self }),
    {
        Self { is_tap, ..self }
    }

    /// Toggles the packet-information header.  Default: true.
    pub fn packet_info(self, packet_info: bool) -> (r: Self)
        ensures
            r == (Self { packet_info, ..self }),
    {
        Self { packet_info, ..self }
    }

    /// Sets the maximum transmission unit of the device.
    pub fn mtu(self, mtu: i32) -> (r: Self)
        ensures
            r == (Self { mtu: Some(mtu), ..self }),
    {
        Self { mtu: Some(mtu), ..self }
    }

    /// Sets the owning user of the device.
    pub fn owner(self, owner: i32) -> (r: Self)
        ensures
            r == (Self { owner: Some(owner), ..self }),
    {
        Self { owner: Some(owner), ..self }
    }

    /// Sets the owning group of the device.
    pub fn group(self, group: i32) -> (r: Self)
        ensures
            r == (Self { group: Some(group), ..self }),
    {
        Self { group: Some(group), ..self }
    }

    /// Sets the IPv4 address of the device.
    pub fn address(self, address: Ipv4Addr) -> (r: Self)
        ensures
            r == (Self { address: Some(address), ..self }),
    {
        Self { address: Some(address), ..self }
    }

    /// Sets the IPv4 point-to-point destination of the device.
    pub fn destination(self, dst: Ipv4Addr) -> (r: Self)
        ensures
            r == (Self { destination: Some(dst), ..self }),
    {
        Self { destination: Some(dst), ..self }
    }

    /// Sets the IPv4 broadcast address of the device.
    pub fn broadcast(self, broadcast: Ipv4Addr) -> (r: Self)
        ensures
            r == (Self { broadcast: Some(broadcast), ..self }),
    {
        Self { broadcast: Some(broadcast), ..self }
    }

    /// Sets the IPv4 netmask of the device.
    pub fn netmask(self, netmask: Ipv4Addr) -> (r: Self)
        ensures
            r == (Self { netmask: Some(netmask), ..self }),
    {
        Self { netmask: Some(netmask), ..self }
    }

    /// Sets the Ethernet hardware address of the device (TAP mode).
    pub fn mac(self, mac: EthernetAddr) -> (r: Self)
        ensures
            r == (Self { mac: Some(mac), ..self }),
    {
        Self { mac: Some(mac), ..self }
    }

    /// Makes the device persist after its descriptors close.
    pub fn persist(self) -> (r: Self)
        ensures
            r == (Self { persist: true, ..self }),
    {
        Self { persist: true, ..self }
    }

    /// Brings the device up as the last configuration step.
    pub fn up(self) -> (r: Self)
        ensures
            r == (Self { up: true, ..self }),
    {
        Self { up: true, ..self }
    }

    /// Turns the gathered choices into the low-level parameter set the
    /// device allocator consumes.  An empty name becomes an absent one;
    /// the device kind and packet-information toggle become the creation
    /// flag word.
    pub fn into_params(self) -> (p: Params)
        ensures
            self.name@.len() == 0 ==> p.name is None,
            self.name@.len() > 0 ==> (p.name matches Some(n) && n@ == self.name@),
            p.flags == build_flags_spec(self.is_tap, self.packet_info),
            p.persist == self.persist,
            p.up == self.up,
            p.mtu == self.mtu,
            p.owner == self.owner,
            p.group == self.group,
            p.address == self.address,
            p.destination == self.destination,
            p.broadcast == self.broadcast,
            p.netmask == self.netmask,
            p.mac == self.mac,
    {
        Params {
            name: if self.name.is_empty() {
                None
            } else {
                Some(self.name.to_owned())
            },
            flags: {
                let base: i16 = if self.is_tap {
                    IFF_TAP
                } else {
                    IFF_TUN
                };
                if !self.packet_info {
                    base | IFF_NO_PI
                } else {
                    base
                }
            },
            persist: self.persist,
            up: self.up,
            mtu: self.mtu,
            owner: self.owner,
            group: self.group,
            address: self.address,
            destination: self.destination,
            broadcast: self.broadcast,
            netmask: self.netmask,
            mac: self.mac,
        }
    }
}

} // verus!
