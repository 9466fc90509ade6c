use wlaninfo::engine::{scan_request, WLanInfo};
use wlaninfo::msg::NlMsg;
use wlaninfo::transport::family_request;

#[test]
fn scan_request_bytes() {
    let m = scan_request(28, 3);
    let expect: Vec<u8> = vec![
        28, 0, 0, 0, // total length
        28, 0, // message type: the family id
        0x01, 0x03, // request + dump
        0, 0, 0, 0, // sequence
        0, 0, 0, 0, // port
        32, 0, 0, 0, // get-scan command, version, reserved
        8, 0, 3, 0, // attribute: length 8, interface-index id
        3, 0, 0, 0, // interface index
    ];
    assert_eq!(m.as_bytes(), &expect[..]);
    assert_eq!(m.len(), 28);
}

#[test]
fn station_request_bytes_carry_captured_address() {
    let mut info = WLanInfo::new();
    let mut bss = Vec::new();
    // hardware address attribute
    bss.extend_from_slice(&[10, 0, 1, 0, 0xAA, 0xBB, 0xCC, 0xDD, 0xEE, 0xFF, 0, 0]);
    // status attribute: associated
    bss.extend_from_slice(&[8, 0, 9, 0, 1, 0, 0, 0]);
    let mut frame = vec![32u8, 0, 0, 0];
    frame.extend_from_slice(&[(bss.len() + 4) as u8, 0, 47, 0]);
    frame.extend_from_slice(&bss);
    info.handle_scan_cb(&frame);
    assert_eq!(info.bssid(), [0xAA, 0xBB, 0xCC, 0xDD, 0xEE, 0xFF]);

    let m = info.station_request(28, 3);
    let expect: Vec<u8> = vec![
        40, 0, 0, 0, // total length
        28, 0, // message type: the family id
        0x01, 0x03, // request + dump
        0, 0, 0, 0, // sequence
        0, 0, 0, 0, // port
        17, 0, 0, 0, // get-station command, version, reserved
        8, 0, 3, 0, // attribute: length 8, interface-index id
        3, 0, 0, 0, // interface index
        10, 0, 6, 0, // attribute: length 10, hardware-address id
        0xAA, 0xBB, 0xCC, 0xDD, 0xEE, 0xFF, // the captured address
        0, 0, // padding
    ];
    assert_eq!(m.as_bytes(), &expect[..]);
}

#[test]
fn station_request_for_empty_result_uses_zero_address() {
    let info = WLanInfo::new();
    let m = info.station_request(28, 3);
    assert_eq!(&m.as_bytes()[32..38], &[0, 0, 0, 0, 0, 0]);
}

#[test]
fn message_builder_pads_attributes_and_tracks_length() {
    let mut m = NlMsg::new();
    assert_eq!(m.len(), 0);
    m.genl_put(0, 0, 28, 0x301, 32, 0);
    assert_eq!(m.len(), 20);
    assert_eq!(&m.as_bytes()[0..4], &[20, 0, 0, 0]);
    m.attr_put(6, &[0xAA, 0xBB, 0xCC]);
    // 4 header bytes, 3 payload bytes, 1 padding byte.
    assert_eq!(m.len(), 28);
    assert_eq!(&m.as_bytes()[0..4], &[28, 0, 0, 0]);
    assert_eq!(&m.as_bytes()[20..28], &[7, 0, 6, 0, 0xAA, 0xBB, 0xCC, 0]);
}

#[test]
fn family_request_bytes() {
    let m = family_request(b"nl80211");
    let expect: Vec<u8> = vec![
        32, 0, 0, 0, // total length
        16, 0, // message type: the controller family
        0x01, 0x00, // request
        0, 0, 0, 0, // sequence
        0, 0, 0, 0, // port
        3, 1, 0, 0, // get-family command, controller version, reserved
        12, 0, 2, 0, // attribute: length 12, family-name id
        b'n', b'l', b'8', b'0', b'2', b'1', b'1', 0, // nul-terminated name
    ];
    assert_eq!(m.as_bytes(), &expect[..]);
}
