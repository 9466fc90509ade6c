use wlaninfo::ssid::find_ssid;

#[test]
fn name_element_first() {
    assert_eq!(find_ssid(&[0x00, 0x04, b'T', b'e', b's', b't']), Some("Test".to_string()));
}

#[test]
fn non_name_element_alone_is_absent() {
    assert_eq!(find_ssid(&[0x01, 0x02, 0xAA, 0xBB]), None);
}

#[test]
fn scans_forward_to_name_element() {
    assert_eq!(find_ssid(&[5, 5, 0x00, 0x03, b'a', b'b', b'c']), Some("abc".to_string()));
}

#[test]
fn repeated_extraction_agrees() {
    let ies = [0x00, 0x04, b'T', b'e', b's', b't'];
    let first = find_ssid(&ies);
    let second = find_ssid(&ies);
    assert_eq!(first, second);
    let junk = [0x07, 0x01, 0xFF, 0x00];
    assert_eq!(find_ssid(&junk), find_ssid(&junk));
}

#[test]
fn invalid_bytes_are_replaced_not_rejected() {
    let got = find_ssid(&[0x00, 0x02, 0xFF, 0xFE]).expect("decoded permissively");
    assert_eq!(got, "\u{FFFD}\u{FFFD}");
}

#[test]
fn exhausted_or_inconsistent_stream_is_absent() {
    assert_eq!(find_ssid(&[]), None);
    assert_eq!(find_ssid(&[0x00]), None);
    // Declared length outruns the stream.
    assert_eq!(find_ssid(&[0x00, 0x04, b'T']), None);
    // A non-name element's trailing pair is not a name.
    assert_eq!(find_ssid(&[0x01, 0x00]), None);
}

#[test]
fn empty_name_element_is_empty_text() {
    assert_eq!(find_ssid(&[0x00, 0x00]), Some(String::new()));
}
