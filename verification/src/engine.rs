//! The query engine: interprets decoded scan-result and station-info records
//! into the query result, and builds the requests that elicit them.
//!
//! A query runs two exchanges. The first asks for the scan results of an
//! interface and keeps the first record whose status says the interface is
//! associated with (or joined to) that network: its hardware address, and
//! whatever of frequency, signal and network name the record carries. The
//! second asks for station info about that hardware address and keeps the
//! negotiated receive bitrate. Any missing attribute is a soft skip: the
//! affected field, or the whole record, simply stays absent.

use vstd::prelude::*;

use crate::attr::AttrHandle;
use crate::attr::empty_table;
use crate::attr::get_bytes;
use crate::attr::get_s32;
use crate::attr::get_u16;
use crate::attr::get_u32;
use crate::attr::get_u8;
use crate::attr::parse_nested;
use crate::attr::spec_parse_range;
use crate::bytes::spec_as_signed32;
use crate::bytes::spec_le16_at;
use crate::bytes::spec_le32;
use crate::bytes::spec_le32_at;
use crate::ids::NL80211_ATTR_BSS;
use crate::ids::NL80211_ATTR_IFINDEX;
use crate::ids::NL80211_ATTR_MAC;
use crate::ids::NL80211_ATTR_MAX_USED;
use crate::ids::NL80211_ATTR_STA_INFO;
use crate::ids::NL80211_BSS_BSSID;
use crate::ids::NL80211_BSS_FREQUENCY;
use crate::ids::NL80211_BSS_INFORMATION_ELEMENTS;
use crate::ids::NL80211_BSS_MAX_USED;
use crate::ids::NL80211_BSS_SIGNAL_MBM;
use crate::ids::NL80211_BSS_SIGNAL_UNSPEC;
use crate::ids::NL80211_BSS_STATUS;
use crate::ids::NL80211_BSS_STATUS_ASSOCIATED;
use crate::ids::NL80211_BSS_STATUS_IBSS_JOINED;
use crate::ids::NL80211_CMD_GET_SCAN;
use crate::ids::NL80211_CMD_GET_STATION;
use crate::ids::NL80211_RATE_INFO_BITRATE;
use crate::ids::NL80211_RATE_INFO_MAX_USED;
use crate::ids::NL80211_STA_INFO_MAX_USED;
use crate::ids::NL80211_STA_INFO_RX_BITRATE;
use crate::ids::NLM_F_DUMP_REQUEST;
use crate::msg::NlMsg;
use crate::msg::spec_attr_append;
use crate::msg::spec_genl_header;
use crate::policy::NlAttrPolicy;
use crate::policy::NlaType;
use crate::policy::PolicyEntry;
use crate::policy::blank_policy;
use crate::signal::nl80211_xbm_to_percent;
use crate::signal::spec_xbm_to_percent;
use crate::ssid::find_ssid;
use crate::ssid::spec_find_ssid;

verus! {

/// A query's fatal failures. Per-attribute and per-record absences are not
/// errors: the affected field simply stays absent.
#[derive(Clone, Copy, PartialEq, Eq, Structural, Debug)]
pub enum QueryError {
    /// The kernel socket could not be opened or connected.
    ConnectionError,
    /// The wireless-configuration protocol family is not registered.
    FamilyNotFound,
    /// The interface name resolved to no interface index.
    InterfaceNotFound,
    /// The kernel answered a request with this negative error code.
    KernelError(i32),
}

/// The mathematical value of a query result.
pub ghost struct WLanView {
    pub essid: Option<Seq<char>>,
    pub bssid: Seq<u8>,
    pub quality: Option<u8>,
    pub bitrate: Option<u64>,
    pub frequency: Option<u64>,
}

/// The query result, filled incrementally across the two exchanges: network
/// name, quality percentage, receive bitrate in bits per second, and channel
/// frequency in Hz, each absent until some record supplies it. The hardware
/// address starts as the zero address and is set by the first matching scan
/// record.
pub struct WLanInfo {
    pub essid: Option<String>,
    bssid: [u8; 6],
    pub quality: Option<u8>,
    pub bitrate: Option<u64>,
    pub frequency: Option<u64>,
}

impl View for WLanInfo {
    type V = WLanView;

    closed spec fn view(&self) -> WLanView {
        WLanView {
            essid: match self.essid {
                Some(s) => Some(s@),
                None => None,
            },
            bssid: self.bssid@,
            quality: self.quality,
            bitrate: self.bitrate,
            frequency: self.frequency,
        }
    }
}

/// The empty result: every field absent, the zero hardware address.
pub open spec fn spec_empty_result() -> WLanView {
    WLanView {
        essid: None,
        bssid: Seq::new(6, |i: int| 0u8),
        quality: None,
        bitrate: None,
        frequency: None,
    }
}

/// The policy a scan-result record is decoded under.
pub open spec fn spec_bss_policy() -> Seq<PolicyEntry> {
    blank_policy((NL80211_BSS_MAX_USED + 1) as nat).update(
        NL80211_BSS_FREQUENCY as int,
        PolicyEntry { kind: NlaType::U32, minlen: 0, maxlen: 0 },
    ).update(
        NL80211_BSS_BSSID as int,
        PolicyEntry { kind: NlaType::Unspec, minlen: 0, maxlen: 0 },
    ).update(
        NL80211_BSS_INFORMATION_ELEMENTS as int,
        PolicyEntry { kind: NlaType::Unspec, minlen: 0, maxlen: 0 },
    ).update(
        NL80211_BSS_SIGNAL_MBM as int,
        PolicyEntry { kind: NlaType::U32, minlen: 0, maxlen: 0 },
    ).update(
        NL80211_BSS_SIGNAL_UNSPEC as int,
        PolicyEntry { kind: NlaType::U8, minlen: 0, maxlen: 0 },
    ).update(
        NL80211_BSS_STATUS as int,
        PolicyEntry { kind: NlaType::U32, minlen: 0, maxlen: 0 },
    )
}

/// Builds the scan-record policy.
pub fn bss_policy() -> (r: NlAttrPolicy)
    ensures
        r@ == spec_bss_policy(),
{
    let mut p = NlAttrPolicy::new(NL80211_BSS_MAX_USED as usize + 1);
    p.set_type(NL80211_BSS_FREQUENCY as usize, NlaType::U32);
    p.set_type(NL80211_BSS_BSSID as usize, NlaType::Unspec);
    p.set_type(NL80211_BSS_INFORMATION_ELEMENTS as usize, NlaType::Unspec);
    p.set_type(NL80211_BSS_SIGNAL_MBM as usize, NlaType::U32);
    p.set_type(NL80211_BSS_SIGNAL_UNSPEC as usize, NlaType::U8);
    p.set_type(NL80211_BSS_STATUS as usize, NlaType::U32);
    proof {
        assert(p@ =~= spec_bss_policy());
    }
    p
}

/// The policy a station-info record is decoded under.
pub open spec fn spec_sta_policy() -> Seq<PolicyEntry> {
    blank_policy((NL80211_STA_INFO_MAX_USED + 1) as nat).update(
        NL80211_STA_INFO_RX_BITRATE as int,
        PolicyEntry { kind: NlaType::Nested, minlen: 0, maxlen: 0 },
    )
}

/// Builds the station-info policy.
pub fn sta_policy() -> (r: NlAttrPolicy)
    ensures
        r@ == spec_sta_policy(),
{
    let mut p = NlAttrPolicy::new(NL80211_STA_INFO_MAX_USED as usize + 1);
    p.set_type(NL80211_STA_INFO_RX_BITRATE as usize, NlaType::Nested);
    proof {
        assert(p@ =~= spec_sta_policy());
    }
    p
}

/// The policy a rate-info record is decoded under.
pub open spec fn spec_rate_policy() -> Seq<PolicyEntry> {
    blank_policy((NL80211_RATE_INFO_MAX_USED + 1) as nat).update(
        NL80211_RATE_INFO_BITRATE as int,
        PolicyEntry { kind: NlaType::U16, minlen: 0, maxlen: 0 },
    )
}

/// Builds the rate-info policy.
pub fn rate_policy() -> (r: NlAttrPolicy)
    ensures
        r@ == spec_rate_policy(),
{
    let mut p = NlAttrPolicy::new(NL80211_RATE_INFO_MAX_USED as usize + 1);
    p.set_type(NL80211_RATE_INFO_BITRATE as usize, NlaType::U16);
    proof {
        assert(p@ =~= spec_rate_policy());
    }
    p
}

/// The top-level attribute table of a reply frame's payload: the bytes after
/// the 4-byte generic-netlink header, decoded unconstrained.
pub open spec fn spec_top_table(frame: Seq<u8>) -> Option<Seq<Option<AttrHandle>>>
    recommends
        frame.len() >= 4,
{
    spec_parse_range(
        frame,
        4,
        frame.len() as int,
        NL80211_ATTR_MAX_USED as int,
        blank_policy(0),
        empty_table((NL80211_ATTR_MAX_USED + 1) as nat),
    )
}

/// The scan-record table of a reply frame, when the frame carries one.
pub open spec fn spec_bss_table(frame: Seq<u8>) -> Option<Seq<Option<AttrHandle>>> {
    if frame.len() < 4 {
        None
    } else {
        match spec_top_table(frame) {
            None => None,
            Some(tb) => match tb[NL80211_ATTR_BSS as int] {
                None => None,
                Some(bss_h) => spec_parse_range(
                    frame,
                    bss_h.offset as int,
                    bss_h.offset + bss_h.len,
                    NL80211_BSS_MAX_USED as int,
                    spec_bss_policy(),
                    empty_table((NL80211_BSS_MAX_USED + 1) as nat),
                ),
            },
        }
    }
}

/// The status value of a reply frame's scan record, when present and wide
/// enough to read.
pub open spec fn spec_bss_status(frame: Seq<u8>) -> Option<u32> {
    match spec_bss_table(frame) {
        None => None,
        Some(bss) => match bss[NL80211_BSS_STATUS as int] {
            None => None,
            Some(h) => if h.len >= 4 {
                Some(spec_le32_at(frame, h.offset as int) as u32)
            } else {
                None
            },
        },
    }
}

/// The fields a matching scan record writes into the result: the hardware
/// address, then frequency, signal-based quality (the mBm encoding winning
/// over the unit-less one), and network name, each where present.
pub open spec fn spec_scan_fill(
    s: WLanView,
    frame: Seq<u8>,
    bss: Seq<Option<AttrHandle>>,
    b_h: AttrHandle,
) -> WLanView {
    let s1 = WLanView { bssid: frame.subrange(b_h.offset as int, b_h.offset + 6), ..s };
    let s2 = match bss[NL80211_BSS_FREQUENCY as int] {
        Some(f_h) => if f_h.len >= 4 {
            WLanView {
                frequency: Some((spec_le32_at(frame, f_h.offset as int) * 1000000) as u64),
                ..s1
            }
        } else {
            s1
        },
        None => s1,
    };
    let s3 = match bss[NL80211_BSS_SIGNAL_UNSPEC as int] {
        Some(u_h) => if u_h.len >= 1 {
            WLanView { quality: Some(frame[u_h.offset as int]), ..s2 }
        } else {
            s2
        },
        None => s2,
    };
    let s4 = match bss[NL80211_BSS_SIGNAL_MBM as int] {
        Some(m_h) => if m_h.len >= 4 {
            WLanView {
                quality: Some(
                    spec_xbm_to_percent(
                        spec_as_signed32(spec_le32_at(frame, m_h.offset as int)),
                    ) as u8,
                ),
                ..s3
            }
        } else {
            s3
        },
        None => s3,
    };
    match bss[NL80211_BSS_INFORMATION_ELEMENTS as int] {
        Some(ie_h) => WLanView {
            essid: spec_find_ssid(frame.subrange(ie_h.offset as int, ie_h.offset + ie_h.len)),
            ..s4
        },
        None => s4,
    }
}

/// What one scan-result reply frame does to the result: nothing unless the
/// frame decodes to a record whose status is associated or ibss-joined and
/// which carries a full hardware address; then the record's fields are
/// written.
pub open spec fn spec_scan_step(s: WLanView, frame: Seq<u8>) -> WLanView {
    match spec_bss_table(frame) {
        None => s,
        Some(bss) => match spec_bss_status(frame) {
            None => s,
            Some(status) => if status != NL80211_BSS_STATUS_ASSOCIATED && status
                != NL80211_BSS_STATUS_IBSS_JOINED {
                s
            } else {
                match bss[NL80211_BSS_BSSID as int] {
                    None => s,
                    Some(b_h) => if b_h.len < 6 {
                        s
                    } else {
                        spec_scan_fill(s, frame, bss, b_h)
                    },
                }
            },
        },
    }
}

/// What one station-info reply frame does to the result: sets the receive
/// bitrate, in bits per second, from the nested rate record's 100 kbit/s
/// units; nothing unless the nested chain down to the bitrate is present.
pub open spec fn spec_station_step(s: WLanView, frame: Seq<u8>) -> WLanView {
    if frame.len() < 4 {
        s
    } else {
        match spec_top_table(frame) {
            None => s,
            Some(tb) => match tb[NL80211_ATTR_STA_INFO as int] {
                None => s,
                Some(sta_h) => match spec_parse_range(
                    frame,
                    sta_h.offset as int,
                    sta_h.offset + sta_h.len,
                    NL80211_STA_INFO_MAX_USED as int,
                    spec_sta_policy(),
                    empty_table((NL80211_STA_INFO_MAX_USED + 1) as nat),
                ) {
                    None => s,
                    Some(sinfo) => match sinfo[NL80211_STA_INFO_RX_BITRATE as int] {
                        None => s,
                        Some(rate_h) => match spec_parse_range(
                            frame,
                            rate_h.offset as int,
                            rate_h.offset + rate_h.len,
                            NL80211_RATE_INFO_MAX_USED as int,
                            spec_rate_policy(),
                            empty_table((NL80211_RATE_INFO_MAX_USED + 1) as nat),
                        ) {
                            None => s,
                            Some(rinfo) => match rinfo[NL80211_RATE_INFO_BITRATE as int] {
                                None => s,
                                Some(br_h) => if br_h.len >= 2 {
                                    WLanView {
                                        bitrate: Some(
                                            (spec_le16_at(frame, br_h.offset as int)
                                                * 100000) as u64,
                                        ),
                                        ..s
                                    }
                                } else {
                                    s
                                },
                            },
                        },
                    },
                },
            },
        }
    }
}

impl WLanInfo {
    /// The empty result every query starts from.
    pub fn new() -> (r: Self)
        ensures
            r@ == spec_empty_result(),
    {
        let r = WLanInfo {
            essid: None,
            bssid: [0u8, 0, 0, 0, 0, 0],
            quality: None,
            bitrate: None,
            frequency: None,
        };
        proof {
            assert(r@.bssid =~= spec_empty_result().bssid);
        }
        r
    }

    /// The hardware address the scan exchange captured; the zero address
    /// until a matching record supplies one.
    pub fn bssid(&self) -> (r: [u8; 6])
        ensures
            r@ == self@.bssid,
    {
        self.bssid
    }

    /// Digests one scan-result reply frame (the bytes after the 16-byte
    /// netlink header).
    pub fn handle_scan_cb(&mut self, frame: &[u8])
        ensures
            final(self)@ == spec_scan_step(old(self)@, frame@),
    {
        if frame.len() < 4 {
            return ;
        }
        let top_policy = NlAttrPolicy::new(0);
        let top = AttrHandle { offset: 4, len: frame.len() - 4 };
        let tb = match parse_nested(frame, top, NL80211_ATTR_MAX_USED, &top_policy) {
            Some(t) => t,
            None => {
                return ;
            },
        };
        let bss_h = match tb.get(NL80211_ATTR_BSS) {
            Some(h) => h,
            None => {
                return ;
            },
        };
        let pol = bss_policy();
        let bss = match parse_nested(frame, bss_h, NL80211_BSS_MAX_USED, &pol) {
            Some(t) => t,
            None => {
                return ;
            },
        };
        let st_h = match bss.get(NL80211_BSS_STATUS) {
            Some(h) => h,
            None => {
                return ;
            },
        };
        let status = match get_u32(frame, st_h) {
            Ok(v) => v,
            Err(_) => {
                return ;
            },
        };
        if status != NL80211_BSS_STATUS_ASSOCIATED && status != NL80211_BSS_STATUS_IBSS_JOINED {
            return ;
        }
        let b_h = match bss.get(NL80211_BSS_BSSID) {
            Some(h) => h,
            None => {
                return ;
            },
        };
        if b_h.len < 6 {
            return ;
        }
        let mac = get_bytes(frame, b_h);
        self.bssid = [mac[0], mac[1], mac[2], mac[3], mac[4], mac[5]];
        proof {
            assert(self.bssid@ =~= frame@.subrange(b_h.offset as int, b_h.offset + 6));
        }
        if let Some(f_h) = bss.get(NL80211_BSS_FREQUENCY) {
            if let Ok(v) = get_u32(frame, f_h) {
                self.frequency = Some(v as u64 * 1000000);
            }
        }
        if let Some(u_h) = bss.get(NL80211_BSS_SIGNAL_UNSPEC) {
            if let Ok(v) = get_u8(frame, u_h) {
                self.quality = Some(v);
            }
        }
        if let Some(m_h) = bss.get(NL80211_BSS_SIGNAL_MBM) {
            if let Ok(v) = get_s32(frame, m_h) {
                self.quality = Some(nl80211_xbm_to_percent(v));
            }
        }
        if let Some(ie_h) = bss.get(NL80211_BSS_INFORMATION_ELEMENTS) {
            let ies = get_bytes(frame, ie_h);
            self.essid = find_ssid(ies);
        }
    }

    /// Digests one station-info reply frame (the bytes after the 16-byte
    /// netlink header).
    pub fn handle_station_cb(&mut self, frame: &[u8])
        ensures
            final(self)@ == spec_station_step(old(self)@, frame@),
    {
        if frame.len() < 4 {
            return ;
        }
        let top_policy = NlAttrPolicy::new(0);
        let top = AttrHandle { offset: 4, len: frame.len() - 4 };
        let tb = match parse_nested(frame, top, NL80211_ATTR_MAX_USED, &top_policy) {
            Some(t) => t,
            None => {
                return ;
            },
        };
        let sta_h = match tb.get(NL80211_ATTR_STA_INFO) {
            Some(h) => h,
            None => {
                return ;
            },
        };
        let spol = sta_policy();
        let sinfo = match parse_nested(frame, sta_h, NL80211_STA_INFO_MAX_USED, &spol) {
            Some(t) => t,
            None => {
                return ;
            },
        };
        let rate_h = match sinfo.get(NL80211_STA_INFO_RX_BITRATE) {
            Some(h) => h,
            None => {
                return ;
            },
        };
        let rpol = rate_policy();
        let rinfo = match parse_nested(frame, rate_h, NL80211_RATE_INFO_MAX_USED, &rpol) {
            Some(t) => t,
            None => {
                return ;
            },
        };
        let br_h = match rinfo.get(NL80211_RATE_INFO_BITRATE) {
            Some(h) => h,
            None => {
                return ;
            },
        };
        if let Ok(v) = get_u16(frame, br_h) {
            self.bitrate = Some(v as u64 * 100000);
        }
    }

    /// The station-info dump request for this result's captured hardware
    /// address, filtered by interface index.
    pub fn station_request(&self, family: u16, ifindex: u32) -> (r: NlMsg)
        ensures
            r@ == spec_station_request(family, ifindex, self@.bssid),
    {
        let mut m = NlMsg::new();
        m.genl_put(0, 0, family, NLM_F_DUMP_REQUEST, NL80211_CMD_GET_STATION, 0);
        m.attr_put_u32(NL80211_ATTR_IFINDEX, ifindex);
        m.attr_put(NL80211_ATTR_MAC, self.bssid.as_slice());
        m
    }
}

/// The bytes of the scan-results dump request for an interface.
pub open spec fn spec_scan_request(family: u16, ifindex: u32) -> Seq<u8> {
    spec_attr_append(
        spec_genl_header(0, 0, family, NLM_F_DUMP_REQUEST, NL80211_CMD_GET_SCAN, 0),
        NL80211_ATTR_IFINDEX,
        spec_le32(ifindex),
    )
}

/// Builds the scan-results dump request for an interface.
pub fn scan_request(family: u16, ifindex: u32) -> (r: NlMsg)
    ensures
        r@ == spec_scan_request(family, ifindex),
{
    let mut m = NlMsg::new();
    m.genl_put(0, 0, family, NLM_F_DUMP_REQUEST, NL80211_CMD_GET_SCAN, 0);
    m.attr_put_u32(NL80211_ATTR_IFINDEX, ifindex);
    m
}

/// The bytes of the station-info dump request for an interface and peer.
pub open spec fn spec_station_request(family: u16, ifindex: u32, bssid: Seq<u8>) -> Seq<u8> {
    spec_attr_append(
        spec_attr_append(
            spec_genl_header(0, 0, family, NLM_F_DUMP_REQUEST, NL80211_CMD_GET_STATION, 0),
            NL80211_ATTR_IFINDEX,
            spec_le32(ifindex),
        ),
        NL80211_ATTR_MAC,
        bssid,
    )
}

/// Whether a scan record's status value marks the network the interface is
/// actually on: associated or ibss-joined.
pub open spec fn spec_status_admits(status: Option<u32>) -> bool {
    match status {
        Some(st) => st == NL80211_BSS_STATUS_ASSOCIATED || st == NL80211_BSS_STATUS_IBSS_JOINED,
        None => false,
    }
}

/// A scan record whose status is absent, unreadable, or any other value
/// (such as merely authenticated) is skipped entirely: the result is
/// unchanged, whatever else the record carries.
pub proof fn lemma_scan_step_skips_unassociated(s: WLanView, frame: Seq<u8>)
    requires
        !spec_status_admits(spec_bss_status(frame)),
    ensures
        spec_scan_step(s, frame) == s,
{
}

} // verus!
