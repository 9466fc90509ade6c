use wlaninfo::attr::{get_bytes, get_s32, get_u16, get_u32, get_u8, parse_flat, parse_nested, TypeMismatch};
use wlaninfo::policy::{NlAttrPolicy, NlaType};

fn le16(v: u16) -> [u8; 2] {
    [(v % 256) as u8, (v / 256) as u8]
}

fn attr_record(ty: u16, payload: &[u8]) -> Vec<u8> {
    let mut out = Vec::new();
    out.extend_from_slice(&le16((payload.len() + 4) as u16));
    out.extend_from_slice(&le16(ty));
    out.extend_from_slice(payload);
    while out.len() % 4 != 0 {
        out.push(0);
    }
    out
}

#[test]
fn flat_two_attrs() {
    let mut buf = attr_record(1, &[0x11, 0x22, 0x33, 0x44]);
    buf.extend_from_slice(&attr_record(2, &[0x99]));
    let policy = NlAttrPolicy::new(0);
    let table = parse_flat(&buf, 3, &policy).expect("valid stream");
    assert_eq!(table.len(), 4);
    let h1 = table.get(1).expect("type 1 stored");
    assert_eq!((h1.offset, h1.len), (4, 4));
    assert_eq!(get_u32(&buf, h1), Ok(0x44332211));
    let h2 = table.get(2).expect("type 2 stored");
    assert_eq!((h2.offset, h2.len), (12, 1));
    assert_eq!(get_u8(&buf, h2), Ok(0x99));
    assert_eq!(table.get(0), None);
    assert_eq!(table.get(3), None);
    assert_eq!(table.get(200), None);
}

#[test]
fn flat_truncated_header_rejected() {
    let policy = NlAttrPolicy::new(0);
    assert!(parse_flat(&[8, 0], 3, &policy).is_none());
}

#[test]
fn flat_truncated_record_rejected() {
    // Declares 12 bytes but only 8 are present.
    let buf = [12u8, 0, 1, 0, 0xAA, 0xBB, 0xCC, 0xDD];
    let policy = NlAttrPolicy::new(0);
    assert!(parse_flat(&buf, 3, &policy).is_none());
}

#[test]
fn flat_record_length_under_header_rejected() {
    let buf = [2u8, 0, 1, 0];
    let policy = NlAttrPolicy::new(0);
    assert!(parse_flat(&buf, 3, &policy).is_none());
}

#[test]
fn flat_type_over_max_skipped() {
    let mut buf = attr_record(5, &[1, 2, 3, 4]);
    buf.extend_from_slice(&attr_record(2, &[7]));
    let policy = NlAttrPolicy::new(0);
    let table = parse_flat(&buf, 3, &policy).expect("valid stream");
    assert_eq!(table.get(2).map(|h| h.len), Some(1));
    assert_eq!(table.get(3), None);
}

#[test]
fn flat_policy_violation_rejected() {
    let buf = attr_record(1, &[0xAB, 0xCD]);
    let mut policy = NlAttrPolicy::new(4);
    policy.set_type(1, NlaType::U32);
    assert!(parse_flat(&buf, 3, &policy).is_none());
    // The same stream passes when type 1 is unconstrained.
    let loose = NlAttrPolicy::new(0);
    assert!(parse_flat(&buf, 3, &loose).is_some());
}

#[test]
fn flat_duplicate_type_last_wins() {
    let mut buf = attr_record(1, &[1, 1, 1, 1]);
    buf.extend_from_slice(&attr_record(1, &[2, 2]));
    let policy = NlAttrPolicy::new(0);
    let table = parse_flat(&buf, 3, &policy).expect("valid stream");
    let h = table.get(1).expect("stored");
    assert_eq!((h.offset, h.len), (12, 2));
}

#[test]
fn flat_masks_flag_bits_in_type() {
    // Type 0x8001: the nested flag plus type 1.
    let buf = [8u8, 0, 0x01, 0x80, 9, 8, 7, 6];
    let policy = NlAttrPolicy::new(0);
    let table = parse_flat(&buf, 3, &policy).expect("valid stream");
    assert!(table.get(1).is_some());
}

#[test]
fn nested_parses_inner_container() {
    let inner = attr_record(2, &[5, 0]);
    let mut buf = attr_record(1, &inner);
    buf.extend_from_slice(&attr_record(3, &[1]));
    let policy = NlAttrPolicy::new(0);
    let table = parse_flat(&buf, 3, &policy).expect("valid stream");
    let parent = table.get(1).expect("nest stored");
    let nested = parse_nested(&buf, parent, 2, &policy).expect("valid nest");
    let h = nested.get(2).expect("inner stored");
    assert_eq!(get_u16(&buf, h), Ok(5));
}

#[test]
fn accessors_check_width() {
    let buf = attr_record(1, &[0xFF]);
    let policy = NlAttrPolicy::new(0);
    let table = parse_flat(&buf, 1, &policy).expect("valid stream");
    let h = table.get(1).expect("stored");
    assert_eq!(get_u8(&buf, h), Ok(0xFF));
    assert_eq!(get_u16(&buf, h), Err(TypeMismatch));
    assert_eq!(get_u32(&buf, h), Err(TypeMismatch));
    assert_eq!(get_s32(&buf, h), Err(TypeMismatch));
}

#[test]
fn policy_reports_its_size() {
    let policy = NlAttrPolicy::new(5);
    assert_eq!(policy.len(), 5);
    assert_eq!(NlAttrPolicy::new(0).len(), 0);
}

#[test]
fn signed_accessor_reads_negative_values() {
    // -4500 mBm, little-endian two's complement.
    let raw = (-4500i32).to_le_bytes();
    let buf = attr_record(1, &raw);
    let policy = NlAttrPolicy::new(0);
    let table = parse_flat(&buf, 1, &policy).expect("valid stream");
    let h = table.get(1).expect("stored");
    assert_eq!(get_s32(&buf, h), Ok(-4500));
    assert_eq!(get_bytes(&buf, h), &raw);
}
