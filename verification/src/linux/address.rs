//! Encoding of IPv4 and hardware addresses into the kernel socket-address
//! structure used by control requests.

use crate::address::EthernetAddr;
use crate::linux::request::SockAddr;
use vstd::prelude::*;

verus! {

/// The address-family tag for internet (IPv4) socket addresses.
pub const AF_INET: u16 = 2;

/// The address-family tag for Ethernet hardware addresses.
pub const ARPHRD_ETHER: u16 = 1;

/// An IPv4 address, as its four octets.
#[derive(Clone, Copy, Debug, PartialEq, Eq)]
pub struct Ipv4Addr {
    octets: [u8; 4],
}

impl View for Ipv4Addr {
    type V = Seq<u8>;

    closed spec fn view(&self) -> Seq<u8> {
        self.octets@
    }
}

impl Ipv4Addr {
    /// Builds an address from its four octets, most significant first.
    pub fn new(a: u8, b: u8, c: u8, d: u8) -> (r: Self)
        ensures
            r@ == seq![a, b, c, d],
    {
        let octets: [u8; 4] = [a, b, c, d];
        proof {
            assert(octets@ =~= seq![a, b, c, d]);
        }
        Ipv4Addr { octets }
    }

    /// Builds an address from an octet array.
    pub fn from_octets(octets: [u8; 4]) -> (r: Self)
        ensures
            r@ == octets@,
    {
        Ipv4Addr { octets }
    }

    /// The four octets of the address, most significant first.
    pub fn octets(&self) -> (r: [u8; 4])
        ensures
            r@ == self@,
    {
        self.octets
    }
}

/// Packs four octets into a 32-bit value in network byte order, as the
/// kernel control structure stores it: the first octet in the least
/// significant byte of the wire value.
pub open spec fn hton_spec(octets: Seq<u8>) -> u32
    recommends
        octets.len() == 4,
{
    ((octets[3] as u32) << 24u32) | ((octets[2] as u32) << 16u32) | ((octets[1] as u32)
        << 8u32) | (octets[0] as u32)
}

/// Unpacks a 32-bit network-byte-order value back into its four octets.
pub open spec fn ntoh_spec(number: u32) -> Seq<u8> {
    seq![
        (number & 0xff) as u8,
        ((number >> 8u32) & 0xff) as u8,
        ((number >> 16u32) & 0xff) as u8,
        ((number >> 24u32) & 0xff) as u8,
    ]
}

/// Packs four octets into the 32-bit wire value, host to network.
pub fn hton(octets: [u8; 4]) -> (r: u32)
    ensures
        r == hton_spec(octets@),
{
    ((octets[3] as u32) << 24u32) | ((octets[2] as u32) << 16u32) | ((octets[1] as u32)
        << 8u32) | (octets[0] as u32)
}

/// Unpacks the 32-bit wire value back into four octets, network to host.
pub fn ntoh(number: u32) -> (r: [u8; 4])
    ensures
        r@ == ntoh_spec(number),
{
    let r: [u8; 4] = [
        (number & 0xff) as u8,
        ((number >> 8u32) & 0xff) as u8,
        ((number >> 16u32) & 0xff) as u8,
        ((number >> 24u32) & 0xff) as u8,
    ];
    proof {
        assert(r@ =~= ntoh_spec(number));
    }
    r
}

/// The numeric conversions are symmetric: unpacking the packed wire value
/// yields the original octets.
pub proof fn lemma_hton_ntoh_round_trip(octets: Seq<u8>)
    requires
        octets.len() == 4,
    ensures
        ntoh_spec(hton_spec(octets)) == octets,
{
    let o0 = octets[0];
    let o1 = octets[1];
    let o2 = octets[2];
    let o3 = octets[3];
    let n = hton_spec(octets);
    assert(((((o3 as u32) << 24u32) | ((o2 as u32) << 16u32) | ((o1 as u32) << 8u32) | (
    o0 as u32)) & 0xff) as u8 == o0) by (bit_vector);
    assert((((((o3 as u32) << 24u32) | ((o2 as u32) << 16u32) | ((o1 as u32) << 8u32) | (
    o0 as u32)) >> 8u32) & 0xff) as u8 == o1) by (bit_vector);
    assert((((((o3 as u32) << 24u32) | ((o2 as u32) << 16u32) | ((o1 as u32) << 8u32) | (
    o0 as u32)) >> 16u32) & 0xff) as u8 == o2) by (bit_vector);
    assert((((((o3 as u32) << 24u32) | ((o2 as u32) << 16u32) | ((o1 as u32) << 8u32) | (
    o0 as u32)) >> 24u32) & 0xff) as u8 == o3) by (bit_vector);
    assert(ntoh_spec(n) =~= octets);
}

/// The socket-address payload that encodes an IPv4 address: a zeroed
/// two-byte port field, the four octets in wire order, and zero padding.
pub open spec fn is_ipv4_payload(data: Seq<u8>, octets: Seq<u8>) -> bool {
    &&& data.len() == 14
    &&& data[0] == 0u8
    &&& data[1] == 0u8
    &&& data.subrange(2, 6) == octets
    &&& forall|j: int| 6 <= j < 14 ==> data[j] == 0u8
}

/// The octets an IPv4 decode reads out of a socket address.
pub open spec fn ipv4_decode(sock: SockAddr) -> Seq<u8> {
    sock.data@.subrange(2, 6)
}

/// Conversion between an IPv4 address and the fixed-size kernel
/// socket-address encoding used by control requests.
pub trait Ipv4AddrExt: Sized {
    /// Encodes the address: internet family, zero port, octets in wire
    /// order.
    fn to_address(&self) -> SockAddr;

    /// Decodes the address field of a socket address.  The family tag is
    /// not checked; the caller selects the operation that filled it.
    fn from_address(sock: SockAddr) -> Self;
}

impl Ipv4AddrExt for Ipv4Addr {
    fn to_address(&self) -> (r: SockAddr)
        ensures
            r.family == AF_INET,
            is_ipv4_payload(r.data@, self@),
    {
        let wire = hton(self.octets);
        let bytes = ntoh(wire);
        proof {
            lemma_hton_ntoh_round_trip(self.octets@);
        }
        let mut data: [u8; 14] = [0; 14];
        data[2] = bytes[0];
        data[3] = bytes[1];
        data[4] = bytes[2];
        data[5] = bytes[3];
        proof {
            assert(data@.subrange(2, 6) =~= self@);
        }
        SockAddr { family: AF_INET, data }
    }

    fn from_address(sock: SockAddr) -> (r: Self)
        ensures
            r@ == ipv4_decode(sock),
    {
        let octets: [u8; 4] = [sock.data[2], sock.data[3], sock.data[4], sock.data[5]];
        proof {
            assert(octets@ =~= ipv4_decode(sock));
        }
        Ipv4Addr { octets }
    }
}

/// Round trip: any socket address carrying the IPv4 encoding of an
/// address decodes back to exactly that address.
pub proof fn lemma_ipv4_round_trip(a: Ipv4Addr, sock: SockAddr)
    requires
        sock.family == AF_INET,
        is_ipv4_payload(sock.data@, a@),
    ensures
        ipv4_decode(sock) == a@,
{
}

/// The ways converting a socket address back into a hardware address can
/// fail.
#[derive(Clone, Copy, Debug, PartialEq, Eq, Structural)]
pub enum MacAddressConversionError {
    /// The family tag was not the Ethernet hardware family; carries the
    /// actual tag.
    WrongType(u16),
}

/// The socket-address payload that encodes a hardware address: the six
/// raw bytes at the start of the data field, zero padding behind them.
pub open spec fn is_mac_payload(data: Seq<u8>, mac: Seq<u8>) -> bool {
    &&& data.len() == 14
    &&& data.subrange(0, 6) == mac
    &&& forall|j: int| 6 <= j < 14 ==> data[j] == 0u8
}

/// The bytes a hardware-address decode reads out of a socket address.
pub open spec fn mac_decode(sock: SockAddr) -> Seq<u8> {
    sock.data@.subrange(0, 6)
}

impl EthernetAddr {
    /// Encodes the hardware address: Ethernet family tag, six raw bytes
    /// at the start of the data field, zero padding behind them.
    pub fn to_address(&self) -> (r: SockAddr)
        ensures
            r.family == ARPHRD_ETHER,
            is_mac_payload(r.data@, self@),
    {
        proof {
            crate::address::lemma_ethernet_addr_len(*self);
        }
        let bytes = self.as_bytes();
        let mut data: [u8; 14] = [0; 14];
        data[0] = bytes[0];
        data[1] = bytes[1];
        data[2] = bytes[2];
        data[3] = bytes[3];
        data[4] = bytes[4];
        data[5] = bytes[5];
        proof {
            assert(data@.subrange(0, 6) =~= self@);
        }
        SockAddr { family: ARPHRD_ETHER, data }
    }

    /// Decodes a hardware address.  Fails, reporting the actual tag, if
    /// the family is not the Ethernet hardware family; the mismatch is
    /// never silently coerced.
    pub fn try_from_address(sock: SockAddr) -> (r: Result<EthernetAddr, MacAddressConversionError>)
        ensures
            sock.family == ARPHRD_ETHER ==> (r matches Ok(m) && m@ == mac_decode(sock)),
            sock.family != ARPHRD_ETHER ==> r == Err::<EthernetAddr, _>(
                MacAddressConversionError::WrongType(sock.family),
            ),
    {
        if sock.family != ARPHRD_ETHER {
            return Err(MacAddressConversionError::WrongType(sock.family));
        }
        let bytes: [u8; 6] = [
            sock.data[0],
            sock.data[1],
            sock.data[2],
            sock.data[3],
            sock.data[4],
            sock.data[5],
        ];
        proof {
            assert(bytes@ =~= mac_decode(sock));
        }
        Ok(EthernetAddr::from(bytes))
    }
}

/// Round trip: any socket address carrying the encoding of a hardware
/// address decodes back to exactly that address; one with a foreign
/// family tag is rejected with the tag it actually carried.
pub proof fn lemma_mac_round_trip(m: EthernetAddr, sock: SockAddr)
    requires
        sock.family == ARPHRD_ETHER,
        is_mac_payload(sock.data@, m@),
    ensures
        mac_decode(sock) == m@,
{
}

} // verus!
