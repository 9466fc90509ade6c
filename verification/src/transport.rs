//! Reply-stream dispatch and family resolution.
//!
//! The caller owns the socket and hands each received buffer here. A buffer
//! holds netlink messages back to back, each a 16-byte header (total length,
//! type, flags, sequence, port) and a payload, padded to 4-byte boundaries.
//! Messages are dispatched in arrival order: data messages feed the active
//! phase's handler; a dump-end or acknowledgement ends the exchange; a
//! negative acknowledgement ends it with the kernel's error code and
//! discards the rest.

use vstd::prelude::*;
use vstd::slice::slice_subrange;

use crate::attr::AttrHandle;
use crate::attr::empty_table;
use crate::attr::get_u16;
use crate::attr::nla_align4;
use crate::attr::parse_nested;
use crate::attr::spec_parse_range;
use crate::bytes::read_le16;
use crate::bytes::read_le32;
use crate::bytes::read_le32_signed;
use crate::bytes::spec_as_signed32;
use crate::bytes::spec_le16_at;
use crate::bytes::spec_le32_at;
use crate::engine::QueryError;
use crate::engine::WLanInfo;
use crate::engine::WLanView;
use crate::engine::spec_scan_step;
use crate::engine::spec_station_step;
use crate::ids::CTRL_ATTR_FAMILY_ID;
use crate::ids::CTRL_ATTR_FAMILY_NAME;
use crate::ids::CTRL_ATTR_MAX_USED;
use crate::ids::CTRL_CMD_GETFAMILY;
use crate::ids::CTRL_VERSION;
use crate::ids::GENL_ID_CTRL;
use crate::ids::NLMSG_DONE;
use crate::ids::NLMSG_ERROR;
use crate::ids::NLMSG_MIN_TYPE;
use crate::ids::NLM_F_REQUEST;
use crate::msg::NlMsg;
use crate::msg::spec_attr_append;
use crate::msg::spec_genl_header;
use crate::policy::NlAttrPolicy;
use crate::policy::blank_policy;

verus! {

/// One step through a reply buffer: the next message classified, with the
/// position that follows it. `End` stands for an exhausted or malformed
/// remainder, which stops dispatch without ending the exchange.
#[derive(Clone, Copy, PartialEq, Eq, Structural, Debug)]
pub enum FrameStep {
    Data { offset: usize, len: usize, next: usize },
    Control { next: usize },
    Done,
    Failed(i32),
    End,
}

/// How a dispatched buffer left the exchange: still expecting replies,
/// completed, or refused by the kernel with a negative error code.
#[derive(Clone, Copy, PartialEq, Eq, Structural, Debug)]
pub enum Dispatch {
    More,
    Done,
    Failed(i32),
}

/// Which exchange's handler data messages feed.
#[derive(Clone, Copy, PartialEq, Eq, Structural, Debug)]
pub enum Phase {
    Scan,
    Station,
}

/// Classifies the message at `pos`: dump-end and non-negative
/// acknowledgements are `Done`; a negative acknowledgement is `Failed` with
/// its code; other control messages are skipped; message types from 16 up
/// carry data, their payload being everything after the 16-byte header.
pub open spec fn spec_next_frame(buf: Seq<u8>, pos: int) -> FrameStep {
    let n = buf.len() as int;
    if pos < 0 || pos + 16 > n {
        FrameStep::End
    } else {
        let mlen = spec_le32_at(buf, pos);
        let mty = spec_le16_at(buf, pos + 4);
        if mlen < 16 || pos + mlen > n {
            FrameStep::End
        } else {
            let next = if pos + nla_align4(mlen) > n {
                n
            } else {
                pos + nla_align4(mlen)
            };
            if mty == NLMSG_DONE {
                FrameStep::Done
            } else if mty == NLMSG_ERROR {
                if mlen < 20 {
                    FrameStep::End
                } else {
                    let code = spec_as_signed32(spec_le32_at(buf, pos + 16));
                    if code < 0 {
                        FrameStep::Failed(code as i32)
                    } else {
                        FrameStep::Done
                    }
                }
            } else if mty < NLMSG_MIN_TYPE {
                FrameStep::Control { next: next as usize }
            } else {
                FrameStep::Data {
                    offset: (pos + 16) as usize,
                    len: (mlen - 16) as usize,
                    next: next as usize,
                }
            }
        }
    }
}

/// Classifies the message at `pos` of a reply buffer.
pub fn next_frame(buf: &[u8], pos: usize) -> (r: FrameStep)
    requires
        pos <= buf.len(),
    ensures
        r == spec_next_frame(buf@, pos as int),
        r matches FrameStep::Data { offset, len, next } ==> offset + len <= buf.len() && pos
            < next <= buf.len(),
        r matches FrameStep::Control { next } ==> pos < next <= buf.len(),
{
    let n = buf.len();
    if n - pos < 16 {
        return FrameStep::End;
    }
    let mlen = read_le32(buf, pos) as usize;
    let mty = read_le16(buf, pos + 4);
    if mlen < 16 || mlen > n - pos {
        return FrameStep::End;
    }
    let pad = (4 - mlen % 4) % 4;
    let next = if pad <= n - (pos + mlen) {
        pos + mlen + pad
    } else {
        n
    };
    if mty == NLMSG_DONE {
        FrameStep::Done
    } else if mty == NLMSG_ERROR {
        if mlen < 20 {
            FrameStep::End
        } else {
            let code = read_le32_signed(buf, pos + 16);
            if code < 0 {
                FrameStep::Failed(code)
            } else {
                FrameStep::Done
            }
        }
    } else if mty < NLMSG_MIN_TYPE {
        FrameStep::Control { next }
    } else {
        FrameStep::Data { offset: pos + 16, len: mlen - 16, next }
    }
}

/// What one data payload does to the result in the given phase.
pub open spec fn spec_frame_step(s: WLanView, phase: Phase, payload: Seq<u8>) -> WLanView {
    match phase {
        Phase::Scan => spec_scan_step(s, payload),
        Phase::Station => spec_station_step(s, payload),
    }
}

/// The result state and exchange status after dispatching the messages of
/// `buf` from `pos` on.
pub open spec fn spec_absorb(s: WLanView, phase: Phase, buf: Seq<u8>, pos: int) -> (
    WLanView,
    Dispatch,
)
    decreases buf.len() - pos,
{
    match spec_next_frame(buf, pos) {
        FrameStep::End => (s, Dispatch::More),
        FrameStep::Done => (s, Dispatch::Done),
        FrameStep::Failed(code) => (s, Dispatch::Failed(code)),
        FrameStep::Control { next } => if pos < next <= buf.len() {
            spec_absorb(s, phase, buf, next as int)
        } else {
            (s, Dispatch::More)
        },
        FrameStep::Data { offset, len, next } => if pos < next <= buf.len() {
            spec_absorb(
                spec_frame_step(s, phase, buf.subrange(offset as int, offset + len)),
                phase,
                buf,
                next as int,
            )
        } else {
            (s, Dispatch::More)
        },
    }
}

impl WLanInfo {
    /// Dispatches one received buffer: every data message feeds the phase's
    /// handler, in arrival order, until the buffer is exhausted (`More`),
    /// the kernel signals dump-end (`Done`), or it refuses the request
    /// (`Failed`, discarding the rest).
    pub fn absorb(&mut self, phase: Phase, buf: &[u8]) -> (d: Dispatch)
        ensures
            final(self)@ == spec_absorb(old(self)@, phase, buf@, 0).0,
            d == spec_absorb(old(self)@, phase, buf@, 0).1,
    {
        let ghost goal = spec_absorb(old(self)@, phase, buf@, 0);
        let mut pos: usize = 0;
        loop
            invariant
                pos <= buf.len(),
                goal == spec_absorb(old(self)@, phase, buf@, 0),
                spec_absorb(self@, phase, buf@, pos as int) == goal,
            decreases buf@.len() - pos,
        {
            match next_frame(buf, pos) {
                FrameStep::End => {
                    return Dispatch::More;
                },
                FrameStep::Done => {
                    return Dispatch::Done;
                },
                FrameStep::Failed(code) => {
                    return Dispatch::Failed(code);
                },
                FrameStep::Control { next } => {
                    pos = next;
                },
                FrameStep::Data { offset, len, next } => {
                    let payload = slice_subrange(buf, offset, offset + len);
                    match phase {
                        Phase::Scan => self.handle_scan_cb(payload),
                        Phase::Station => self.handle_station_cb(payload),
                    }
                    pos = next;
                },
            }
        }
    }
}

/// The bytes of the request that asks the generic-netlink controller for the
/// id of the family with the given (nul-terminated) name.
pub open spec fn spec_family_request(name: Seq<u8>) -> Seq<u8> {
    spec_attr_append(
        spec_genl_header(0, 0, GENL_ID_CTRL, NLM_F_REQUEST, CTRL_CMD_GETFAMILY, CTRL_VERSION),
        CTRL_ATTR_FAMILY_NAME,
        name + seq![0u8],
    )
}

/// Builds the family-resolution request for a family name.
pub fn family_request(name: &[u8]) -> (r: NlMsg)
    requires
        name.len() + 5 <= u16::MAX,
    ensures
        r@ == spec_family_request(name@),
{
    let mut m = NlMsg::new();
    m.genl_put(0, 0, GENL_ID_CTRL, NLM_F_REQUEST, CTRL_CMD_GETFAMILY, CTRL_VERSION);
    let mut payload: Vec<u8> = Vec::new();
    let mut i: usize = 0;
    while i < name.len()
        invariant
            i <= name.len(),
            payload@ == name@.subrange(0, i as int),
        decreases name.len() - i,
    {
        payload.push(name[i]);
        i = i + 1;
        assert(payload@ =~= name@.subrange(0, i as int));
    }
    payload.push(0);
    assert(payload@ =~= name@ + seq![0u8]);
    m.attr_put(CTRL_ATTR_FAMILY_NAME, payload.as_slice());
    m
}

/// The family id the controller's reply carries, read from `pos` on:
/// `Ok` with the id of the first data message holding one; `FamilyNotFound`
/// when the stream ends, the exchange completes, or the kernel refuses the
/// lookup (the family is unregistered).
pub open spec fn spec_family_reply(buf: Seq<u8>, pos: int) -> Result<u16, QueryError>
    decreases buf.len() - pos,
{
    match spec_next_frame(buf, pos) {
        FrameStep::End => Err(QueryError::FamilyNotFound),
        FrameStep::Done => Err(QueryError::FamilyNotFound),
        FrameStep::Failed(code) => Err(QueryError::FamilyNotFound),
        FrameStep::Control { next } => if pos < next <= buf.len() {
            spec_family_reply(buf, next as int)
        } else {
            Err(QueryError::FamilyNotFound)
        },
        FrameStep::Data { offset, len, next } => if pos < next <= buf.len() {
            let payload = buf.subrange(offset as int, offset + len);
            let found = if payload.len() < 4 {
                None
            } else {
                match spec_parse_range(
                    payload,
                    4,
                    payload.len() as int,
                    CTRL_ATTR_MAX_USED as int,
                    blank_policy(0),
                    empty_table((CTRL_ATTR_MAX_USED + 1) as nat),
                ) {
                    None => None,
                    Some(tb) => match tb[CTRL_ATTR_FAMILY_ID as int] {
                        None => None,
                        Some(h) => if h.len >= 2 {
                            Some(spec_le16_at(payload, h.offset as int) as u16)
                        } else {
                            None
                        },
                    },
                }
            };
            match found {
                Some(id) => Ok(id),
                None => spec_family_reply(buf, next as int),
            }
        } else {
            Err(QueryError::FamilyNotFound)
        },
    }
}

/// Reads the family id out of the controller's reply buffer.
pub fn parse_family_reply(buf: &[u8]) -> (r: Result<u16, QueryError>)
    ensures
        r == spec_family_reply(buf@, 0),
{
    let ghost goal = spec_family_reply(buf@, 0);
    let mut pos: usize = 0;
    loop
        invariant
            pos <= buf.len(),
            goal == spec_family_reply(buf@, 0),
            spec_family_reply(buf@, pos as int) == goal,
        decreases buf@.len() - pos,
    {
        match next_frame(buf, pos) {
            FrameStep::End => {
                return Err(QueryError::FamilyNotFound);
            },
            FrameStep::Done => {
                return Err(QueryError::FamilyNotFound);
            },
            FrameStep::Failed(_code) => {
                return Err(QueryError::FamilyNotFound);
            },
            FrameStep::Control { next } => {
                pos = next;
            },
            FrameStep::Data { offset, len, next } => {
                let payload = slice_subrange(buf, offset, offset + len);
                if payload.len() >= 4 {
                    let pol = NlAttrPolicy::new(0);
                    let top = AttrHandle { offset: 4, len: payload.len() - 4 };
                    if let Some(tb) = parse_nested(payload, top, CTRL_ATTR_MAX_USED, &pol) {
                        if let Some(h) = tb.get(CTRL_ATTR_FAMILY_ID) {
                            if let Ok(id) = get_u16(payload, h) {
                                return Ok(id);
                            }
                        }
                    }
                }
                pos = next;
            },
        }
    }
}

} // verus!
