use async_tun::linux::request::{IfReq, Prop, IFNAMSIZ};

#[test]
fn new_request_has_empty_property_slot() {
    let req = IfReq::new("tun0");
    assert_eq!(req.prop, Prop::Empty);
}

#[test]
fn short_name_reads_back_without_padding() {
    let req = IfReq::new("tun0");
    assert_eq!(req.name(), "tun0");
}

#[test]
fn empty_name_reads_back_empty() {
    let req = IfReq::new("");
    assert_eq!(req.name(), "");
}

#[test]
fn name_of_exactly_the_limit_keeps_every_byte() {
    let name = "0123456789abcdef";
    assert_eq!(name.len(), IFNAMSIZ);
    let req = IfReq::new(name);
    assert_eq!(req.name(), name);
}

#[test]
fn name_one_byte_over_the_limit_is_truncated() {
    let name = "0123456789abcdefg";
    assert_eq!(name.len(), IFNAMSIZ + 1);
    let req = IfReq::new(name);
    assert_eq!(req.name(), "0123456789abcdef");
}

#[test]
fn much_longer_name_is_truncated_to_the_limit() {
    let req = IfReq::new("an-interface-name-well-over-the-limit");
    assert_eq!(req.name(), "an-interface-nam");
}

#[test]
fn request_from_buffer_keeps_the_buffer() {
    let mut buf = [0u8; 16];
    buf[0] = b'e';
    buf[1] = b't';
    buf[2] = b'h';
    buf[3] = b'9';
    let req = IfReq::from_buf(buf);
    assert_eq!(req.name(), "eth9");
    assert_eq!(req.prop, Prop::Empty);
}
