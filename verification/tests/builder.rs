use async_tun::linux::address::Ipv4Addr;
use async_tun::linux::request::{IFF_NO_PI, IFF_TAP, IFF_TUN};
use async_tun::{EthernetAddr, TunBuilder};

#[test]
fn default_builder_yields_tun_with_packet_info() {
    let params = TunBuilder::new().into_params();
    assert_eq!(params.name, None);
    assert_eq!(params.flags, IFF_TUN);
    assert!(!params.persist);
    assert!(!params.up);
    assert_eq!(params.mtu, None);
    assert_eq!(params.owner, None);
    assert_eq!(params.group, None);
    assert_eq!(params.address, None);
    assert_eq!(params.destination, None);
    assert_eq!(params.broadcast, None);
    assert_eq!(params.netmask, None);
    assert!(params.mac.is_none());
}

#[test]
fn tap_without_packet_info_sets_both_flags() {
    let params = TunBuilder::new().tap(true).packet_info(false).into_params();
    assert_eq!(params.flags, IFF_TAP | IFF_NO_PI);
}

#[test]
fn tun_without_packet_info_sets_no_pi() {
    let params = TunBuilder::new().packet_info(false).into_params();
    assert_eq!(params.flags, IFF_TUN | IFF_NO_PI);
}

#[test]
fn empty_name_becomes_absent() {
    let params = TunBuilder::new().name("").into_params();
    assert_eq!(params.name, None);
}

#[test]
fn nonempty_name_is_kept() {
    let params = TunBuilder::new().name("tun3").into_params();
    assert_eq!(params.name.as_deref(), Some("tun3"));
}

#[test]
fn options_carry_over_into_params() {
    let params = TunBuilder::new()
        .mtu(1350)
        .owner(1000)
        .group(1001)
        .address(Ipv4Addr::new(10, 0, 0, 1))
        .destination(Ipv4Addr::new(10, 1, 0, 1))
        .broadcast(Ipv4Addr::new(255, 255, 255, 255))
        .netmask(Ipv4Addr::new(255, 255, 255, 0))
        .mac(EthernetAddr::from([2u8, 0, 0, 0, 0, 1]))
        .persist()
        .up()
        .into_params();
    assert_eq!(params.mtu, Some(1350));
    assert_eq!(params.owner, Some(1000));
    assert_eq!(params.group, Some(1001));
    assert_eq!(params.address, Some(Ipv4Addr::new(10, 0, 0, 1)));
    assert_eq!(params.destination, Some(Ipv4Addr::new(10, 1, 0, 1)));
    assert_eq!(params.broadcast, Some(Ipv4Addr::new(255, 255, 255, 255)));
    assert_eq!(params.netmask, Some(Ipv4Addr::new(255, 255, 255, 0)));
    assert!(params.persist);
    assert!(params.up);
    assert_eq!(
        params.mac.map(|m| m.hex_string()),
        Some(String::from("02:00:00:00:00:01"))
    );
}
