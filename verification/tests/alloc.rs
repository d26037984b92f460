use async_tun::linux::address::Ipv4Addr;
use async_tun::linux::fake::FakeBackend;
use async_tun::linux::params::Params;
use async_tun::linux::request::{IFF_RUNNING, IFF_UP};
use async_tun::result::TunError;
use async_tun::tun::allocate;
use async_tun::TunBuilder;

fn full_params() -> Params {
    TunBuilder::new()
        .name("")
        .tap(false)
        .packet_info(false)
        .mtu(1350)
        .owner(1000)
        .group(1001)
        .address(Ipv4Addr::new(10, 0, 0, 1))
        .destination(Ipv4Addr::new(10, 1, 0, 1))
        .broadcast(Ipv4Addr::new(255, 255, 255, 255))
        .netmask(Ipv4Addr::new(255, 255, 255, 0))
        .persist()
        .up()
        .into_params()
}

#[test]
fn end_to_end_kernel_assigned_name_mtu_and_up() {
    // Build with an empty name, point-to-point kind, no packet-info
    // header, an MTU of 1350, and bring-up.
    let params = TunBuilder::new()
        .name("")
        .tap(false)
        .packet_info(false)
        .mtu(1350)
        .up()
        .into_params();
    let mut kernel = FakeBackend::new();
    let fds = vec![5];
    let iface = allocate(&mut kernel, &fds, &params).unwrap();
    // The kernel assigned a name, so the handle's name is not empty.
    assert!(!iface.name().is_empty());
    // The MTU reads back as the one configured.
    assert_eq!(iface.mtu(&mut kernel, None).unwrap(), 1350);
    // The flag word includes the up and running bits.
    let flags = iface.flags(&mut kernel, None).unwrap();
    assert_eq!(flags & (IFF_UP | IFF_RUNNING), IFF_UP | IFF_RUNNING);
}

#[test]
fn requested_name_is_kept() {
    let params = TunBuilder::new().name("tun7").into_params();
    let mut kernel = FakeBackend::new();
    let fds = vec![4];
    let iface = allocate(&mut kernel, &fds, &params).unwrap();
    assert_eq!(iface.name(), "tun7");
}

#[test]
fn three_queues_share_one_resolved_name() {
    let params = TunBuilder::new().name("").mtu(1350).into_params();
    let mut kernel = FakeBackend::new();
    let fds = vec![3, 4, 5];
    let iface = allocate(&mut kernel, &fds, &params).unwrap();
    // One shared interface handle stands behind every queue; each queue
    // reports the same resolved, kernel-assigned name through it.
    let handles = [&iface, &iface, &iface];
    let name = handles[0].name().to_string();
    assert!(!name.is_empty());
    for handle in handles {
        assert_eq!(handle.name(), name);
    }
}

#[test]
fn allocation_failure_at_any_step_yields_no_handle() {
    let params = full_params();
    // With three descriptors and every option present the allocation
    // issues fourteen port operations: three attaches, the socket open,
    // and the ten configuration calls (bring-up reads then writes).
    let total_ops = 14u32;
    for failing_op in 0..total_ops {
        let mut kernel = FakeBackend::failing_at(failing_op);
        let fds = vec![3, 4, 5];
        let result = allocate(&mut kernel, &fds, &params);
        assert!(
            result.is_err(),
            "a failure at operation {} must abort the allocation",
            failing_op
        );
    }
    // With no operation failing, the same allocation succeeds whole.
    let mut kernel = FakeBackend::failing_at(total_ops);
    let fds = vec![3, 4, 5];
    assert!(allocate(&mut kernel, &fds, &params).is_ok());
}

#[test]
fn multi_queue_handles_share_mtu_state() {
    let params = TunBuilder::new().name("").mtu(1350).into_params();
    let mut kernel = FakeBackend::new();
    let fds = vec![6, 7];
    let iface = allocate(&mut kernel, &fds, &params).unwrap();
    let first = &iface;
    let second = &iface;
    assert_eq!(first.mtu(&mut kernel, None).unwrap(), 1350);
    // One queue's handle raises the MTU; the other observes it, because
    // the state lives in the one shared interface, not in a handle.
    assert_eq!(first.mtu(&mut kernel, Some(1400)).unwrap(), 1400);
    assert_eq!(second.mtu(&mut kernel, None).unwrap(), 1400);
}

#[test]
fn flags_are_added_never_replaced() {
    let params = TunBuilder::new().name("").into_params();
    let mut kernel = FakeBackend::new();
    let fds = vec![8];
    let iface = allocate(&mut kernel, &fds, &params).unwrap();
    // Establish existing flags, then add one more bit: the result keeps
    // the existing flags, never just the new bit.
    assert_eq!(iface.flags(&mut kernel, Some(0x0040)).unwrap(), 0x0040);
    assert_eq!(iface.flags(&mut kernel, Some(0x0001)).unwrap(), 0x0041);
    assert_eq!(iface.flags(&mut kernel, None).unwrap(), 0x0041);
}

#[test]
fn configured_addresses_read_back() {
    let params = full_params();
    let mut kernel = FakeBackend::new();
    let fds = vec![9];
    let iface = allocate(&mut kernel, &fds, &params).unwrap();
    let addr = iface.address(&mut kernel, None).unwrap();
    assert_eq!(addr.octets(), [10, 0, 0, 1]);
    let dst = iface.destination(&mut kernel, None).unwrap();
    assert_eq!(dst.octets(), [10, 1, 0, 1]);
    let brd = iface.broadcast(&mut kernel, None).unwrap();
    assert_eq!(brd.octets(), [255, 255, 255, 255]);
    let mask = iface.netmask(&mut kernel, None).unwrap();
    assert_eq!(mask.octets(), [255, 255, 255, 0]);
}

#[test]
fn set_address_echoes_the_requested_value() {
    let params = TunBuilder::new().name("").into_params();
    let mut kernel = FakeBackend::new();
    let fds = vec![10];
    let iface = allocate(&mut kernel, &fds, &params).unwrap();
    let echoed = iface.address(&mut kernel, Some(Ipv4Addr::new(192, 168, 1, 7))).unwrap();
    assert_eq!(echoed.octets(), [192, 168, 1, 7]);
}

#[test]
fn querying_an_address_that_was_never_set_fails() {
    let params = TunBuilder::new().name("").into_params();
    let mut kernel = FakeBackend::new();
    let fds = vec![11];
    let iface = allocate(&mut kernel, &fds, &params).unwrap();
    let err = iface.address(&mut kernel, None).unwrap_err();
    let TunError::OsCallFailed(code) = err;
    assert_eq!(code, 99);
}

#[test]
fn injected_failure_reports_the_os_error() {
    let params = TunBuilder::new().name("").into_params();
    let mut kernel = FakeBackend::failing_at(0);
    let fds = vec![12];
    let err = allocate(&mut kernel, &fds, &params).unwrap_err();
    assert_eq!(err, TunError::OsCallFailed(5));
    assert_eq!(err.code(), 5);
}
