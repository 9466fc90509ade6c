use wlaninfo::engine::{QueryError, WLanInfo};
use wlaninfo::transport::{parse_family_reply, Dispatch, Phase};

fn le16(v: u16) -> [u8; 2] {
    [(v % 256) as u8, (v / 256) as u8]
}

fn le32(v: u32) -> [u8; 4] {
    v.to_le_bytes()
}

fn nlmsg(ty: u16, payload: &[u8]) -> Vec<u8> {
    let mut out = Vec::new();
    out.extend_from_slice(&le32((16 + payload.len()) as u32));
    out.extend_from_slice(&le16(ty));
    out.extend_from_slice(&le16(0));
    out.extend_from_slice(&le32(0));
    out.extend_from_slice(&le32(0));
    out.extend_from_slice(payload);
    while out.len() % 4 != 0 {
        out.push(0);
    }
    out
}

fn attr(ty: u16, payload: &[u8]) -> Vec<u8> {
    let mut out = Vec::new();
    out.extend_from_slice(&le16((payload.len() + 4) as u16));
    out.extend_from_slice(&le16(ty));
    out.extend_from_slice(payload);
    while out.len() % 4 != 0 {
        out.push(0);
    }
    out
}

fn done_frame() -> Vec<u8> {
    nlmsg(3, &le32(0))
}

fn error_frame(code: i32) -> Vec<u8> {
    // An acknowledgement carries the error code and echoes the request header.
    let mut payload = Vec::new();
    payload.extend_from_slice(&code.to_le_bytes());
    payload.extend_from_slice(&[0; 16]);
    nlmsg(2, &payload)
}

fn station_payload(raw_rate: u16) -> Vec<u8> {
    let rate = attr(1, &le16(raw_rate));
    let sta = attr(14, &rate);
    let mut frame = vec![17u8, 0, 0, 0];
    frame.extend_from_slice(&attr(21, &sta));
    frame
}

#[test]
fn empty_buffer_wants_more() {
    let mut info = WLanInfo::new();
    assert_eq!(info.absorb(Phase::Scan, &[]), Dispatch::More);
}

#[test]
fn done_ends_exchange() {
    let mut info = WLanInfo::new();
    assert_eq!(info.absorb(Phase::Scan, &done_frame()), Dispatch::Done);
}

#[test]
fn negative_acknowledgement_fails_exchange() {
    let mut info = WLanInfo::new();
    let mut buf = error_frame(-22);
    buf.extend_from_slice(&done_frame());
    assert_eq!(info.absorb(Phase::Scan, &buf), Dispatch::Failed(-22));
}

#[test]
fn zero_acknowledgement_ends_exchange() {
    let mut info = WLanInfo::new();
    assert_eq!(info.absorb(Phase::Station, &error_frame(0)), Dispatch::Done);
}

#[test]
fn trailing_garbage_stops_dispatch() {
    let mut info = WLanInfo::new();
    assert_eq!(info.absorb(Phase::Scan, &[1, 2, 3]), Dispatch::More);
}

#[test]
fn empty_scan_then_one_station_record() {
    // Phase one returns no records; phase two returns one with raw rate 5.
    let mut info = WLanInfo::new();
    assert_eq!(info.absorb(Phase::Scan, &done_frame()), Dispatch::Done);
    let mut buf = nlmsg(28, &station_payload(5));
    buf.extend_from_slice(&done_frame());
    assert_eq!(info.absorb(Phase::Station, &buf), Dispatch::Done);
    assert_eq!(info.essid, None);
    assert_eq!(info.quality, None);
    assert_eq!(info.frequency, None);
    assert_eq!(info.bitrate, Some(500_000));
}

#[test]
fn data_after_failure_is_discarded() {
    let mut info = WLanInfo::new();
    let mut buf = error_frame(-1);
    buf.extend_from_slice(&nlmsg(28, &station_payload(7)));
    assert_eq!(info.absorb(Phase::Station, &buf), Dispatch::Failed(-1));
    assert_eq!(info.bitrate, None);
}

fn family_reply(id: u16) -> Vec<u8> {
    let mut payload = vec![1u8, 2, 0, 0];
    payload.extend_from_slice(&attr(1, &le16(id)));
    payload.extend_from_slice(&attr(2, b"nl80211\0"));
    nlmsg(16, &payload)
}

#[test]
fn family_reply_yields_id() {
    assert_eq!(parse_family_reply(&family_reply(28)), Ok(28));
}

#[test]
fn family_reply_refusal_is_not_found() {
    assert_eq!(parse_family_reply(&error_frame(-2)), Err(QueryError::FamilyNotFound));
}

#[test]
fn family_reply_empty_is_not_found() {
    assert_eq!(parse_family_reply(&[]), Err(QueryError::FamilyNotFound));
    assert_eq!(parse_family_reply(&done_frame()), Err(QueryError::FamilyNotFound));
}

#[test]
fn connection_error_is_its_own_failure() {
    // A socket that cannot be opened yields this error and no result value.
    let failed: Result<WLanInfo, QueryError> = Err(QueryError::ConnectionError);
    assert_eq!(failed.err(), Some(QueryError::ConnectionError));
    assert_ne!(QueryError::ConnectionError, QueryError::FamilyNotFound);
    assert_ne!(QueryError::KernelError(-1), QueryError::KernelError(-2));
}
