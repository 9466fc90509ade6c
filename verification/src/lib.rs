//! Query engine for the identity and link quality of the wireless network a
//! given interface is associated with, spoken over the kernel's generic
//! netlink wireless-configuration protocol.
//!
//! The crate holds the protocol logic: building request messages, walking
//! reply frames, decoding type-length-value attribute streams, and turning
//! the decoded attributes into a query result. The socket itself is owned by
//! the caller, which feeds received bytes back in.

pub mod attr;
pub mod bytes;
pub mod engine;
pub mod ids;
pub mod msg;
pub mod policy;
pub mod signal;
pub mod ssid;
pub mod text;
pub mod transport;
