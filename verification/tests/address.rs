use async_tun::linux::address::{hton, ntoh, Ipv4Addr, Ipv4AddrExt, MacAddressConversionError};
use async_tun::linux::address::{AF_INET, ARPHRD_ETHER};
use async_tun::linux::request::SockAddr;
use async_tun::{EthernetAddr, EthernetAddrError};

#[test]
fn ethernet_addr_from_array_reads_back() {
    let mac = EthernetAddr::from([0x00u8, 0x11, 0x22, 0x33, 0x44, 0x55]);
    assert_eq!(mac.as_bytes(), &[0x00u8, 0x11, 0x22, 0x33, 0x44, 0x55]);
}

#[test]
fn ethernet_addr_from_slice_of_right_length() {
    let bytes: Vec<u8> = vec![1, 2, 3, 4, 5, 6];
    let mac = EthernetAddr::try_from_slice(&bytes).unwrap();
    assert_eq!(mac.as_bytes(), &[1u8, 2, 3, 4, 5, 6]);
}

#[test]
fn ethernet_addr_from_short_slice_reports_length() {
    let bytes: Vec<u8> = vec![1, 2, 3];
    let err = EthernetAddr::try_from_slice(&bytes).unwrap_err();
    assert_eq!(err, EthernetAddrError::WrongLength(3));
}

#[test]
fn ethernet_addr_from_long_slice_reports_length() {
    let bytes: Vec<u8> = vec![0; 7];
    let err = EthernetAddr::try_from_slice(&bytes).unwrap_err();
    assert_eq!(err, EthernetAddrError::WrongLength(7));
}

#[test]
fn ethernet_addr_hex_string() {
    let mac = EthernetAddr::from([0xaau8, 0xbb, 0x0c, 0xdd, 0xee, 0xff]);
    assert_eq!(mac.hex_string(), "aa:bb:0c:dd:ee:ff");
}

#[test]
fn hton_packs_first_octet_least_significant() {
    assert_eq!(hton([1, 2, 3, 4]), 0x0403_0201);
    assert_eq!(hton([10, 0, 0, 1]), 0x0100_000a);
}

#[test]
fn ntoh_unpacks_hton() {
    for octets in [[0u8, 0, 0, 0], [10, 0, 0, 1], [255, 255, 255, 255], [192, 168, 1, 77]] {
        assert_eq!(ntoh(hton(octets)), octets);
    }
}

#[test]
fn ipv4_encoding_layout() {
    let a = Ipv4Addr::new(10, 0, 0, 1);
    let sock = a.to_address();
    assert_eq!(sock.family, AF_INET);
    assert_eq!(
        sock.data,
        [0u8, 0, 10, 0, 0, 1, 0, 0, 0, 0, 0, 0, 0, 0]
    );
}

#[test]
fn ipv4_round_trip() {
    for octets in [[0u8, 0, 0, 0], [10, 0, 0, 1], [255, 255, 255, 255], [172, 16, 254, 3]] {
        let a = Ipv4Addr::from_octets(octets);
        let back = Ipv4Addr::from_address(a.to_address());
        assert_eq!(back.octets(), octets);
    }
}

#[test]
fn mac_encoding_layout() {
    let mac = EthernetAddr::from([1u8, 2, 3, 4, 5, 6]);
    let sock = mac.to_address();
    assert_eq!(sock.family, ARPHRD_ETHER);
    assert_eq!(sock.data, [1u8, 2, 3, 4, 5, 6, 0, 0, 0, 0, 0, 0, 0, 0]);
}

#[test]
fn mac_round_trip() {
    let mac = EthernetAddr::from([0xdeu8, 0xad, 0xbe, 0xef, 0x00, 0x01]);
    let back = EthernetAddr::try_from_address(mac.to_address()).unwrap();
    assert_eq!(back.as_bytes(), mac.as_bytes());
}

#[test]
fn mac_decode_rejects_foreign_family() {
    let sock = SockAddr { family: AF_INET, data: [0u8; 14] };
    let err = EthernetAddr::try_from_address(sock).unwrap_err();
    assert_eq!(err, MacAddressConversionError::WrongType(AF_INET));
}
