//! Protocol identifiers: the netlink control values and the subset of the
//! wireless-configuration family's command and attribute ids that this crate
//! consumes, held as plain integer constants.

use vstd::prelude::*;

verus! {

// Netlink message flags.
pub const NLM_F_REQUEST: u16 = 0x1;
/// Request plus the two flags that mark a dump (root | match).
pub const NLM_F_DUMP_REQUEST: u16 = 0x301;

// Netlink control message types; data messages start at 16.
pub const NLMSG_ERROR: u16 = 2;
pub const NLMSG_DONE: u16 = 3;
pub const NLMSG_MIN_TYPE: u16 = 16;

// The generic-netlink controller, used to resolve a family name to its id.
pub const GENL_ID_CTRL: u16 = 16;
pub const CTRL_VERSION: u8 = 1;
pub const CTRL_CMD_GETFAMILY: u8 = 3;
pub const CTRL_ATTR_FAMILY_ID: u16 = 1;
pub const CTRL_ATTR_FAMILY_NAME: u16 = 2;
/// The controller's attribute table covers the two ids above.
pub const CTRL_ATTR_MAX_USED: u16 = 2;

// Wireless-configuration commands.
pub const NL80211_CMD_GET_STATION: u8 = 17;
pub const NL80211_CMD_GET_SCAN: u8 = 32;

// Top-level attributes.
pub const NL80211_ATTR_IFINDEX: u16 = 3;
pub const NL80211_ATTR_MAC: u16 = 6;
pub const NL80211_ATTR_STA_INFO: u16 = 21;
pub const NL80211_ATTR_BSS: u16 = 47;
/// The highest top-level attribute id this crate reads.
pub const NL80211_ATTR_MAX_USED: u16 = 47;

// Attributes nested under a scan-result record.
pub const NL80211_BSS_BSSID: u16 = 1;
pub const NL80211_BSS_FREQUENCY: u16 = 2;
pub const NL80211_BSS_INFORMATION_ELEMENTS: u16 = 6;
pub const NL80211_BSS_SIGNAL_MBM: u16 = 7;
pub const NL80211_BSS_SIGNAL_UNSPEC: u16 = 8;
pub const NL80211_BSS_STATUS: u16 = 9;
pub const NL80211_BSS_MAX_USED: u16 = 9;

// Scan-record status values.
pub const NL80211_BSS_STATUS_ASSOCIATED: u32 = 1;
pub const NL80211_BSS_STATUS_IBSS_JOINED: u32 = 2;

// Attributes nested under a station-info record.
pub const NL80211_STA_INFO_RX_BITRATE: u16 = 14;
pub const NL80211_STA_INFO_MAX_USED: u16 = 14;

// Attributes nested under a rate-info record.
pub const NL80211_RATE_INFO_BITRATE: u16 = 1;
pub const NL80211_RATE_INFO_MAX_USED: u16 = 1;

} // verus!
