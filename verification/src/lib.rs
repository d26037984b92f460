//! Creation and configuration of virtual TUN/TAP network interfaces.
//!
//! The crate models the kernel's control-plane protocol: the fixed-layout
//! configuration request, the socket-address codec for IPv4 and hardware
//! addresses, and the ordered sequence of control calls that allocates a
//! device and applies its configuration.  The control calls themselves are
//! issued through a [`linux::backend::Backend`], so the protocol logic is
//! independent of the actual kernel.

pub mod address;
pub mod builder;
pub mod linux;
pub mod params;
pub mod result;
mod text;
pub mod tun;

pub use self::address::EthernetAddr;
pub use self::address::EthernetAddrError;
pub use self::builder::TunBuilder;
