//! TLV attribute-stream parser and typed accessors.
//!
//! A netlink attribute record is a 2-byte length (header included), a 2-byte
//! type (top two bits are flags and are masked off), the payload, and padding
//! to the next 4-byte boundary. One parse pass builds a table from attribute
//! type to a handle (offset + length) into the parsed buffer; the last
//! occurrence of a duplicate type wins. A record whose type exceeds the
//! table's maximum is skipped; a record that fails the policy, or a buffer
//! truncated mid-record, fails the whole parse.

use vstd::prelude::*;

use vstd::slice::slice_subrange;

use crate::bytes::spec_le16_at;
use crate::bytes::spec_le32_at;
use crate::bytes::spec_as_signed32;
use crate::bytes::read_le16;
use crate::bytes::read_le32;
use crate::bytes::read_le32_signed;
use crate::policy::NlAttrPolicy;
use crate::policy::PolicyEntry;
use crate::policy::policy_allows;

verus! {

/// A non-owning view into a parsed buffer: `len` payload bytes at `offset`.
/// Valid only as long as the buffer it was parsed from.
#[derive(Clone, Copy, PartialEq, Eq, Structural, Debug)]
pub struct AttrHandle {
    pub offset: usize,
    pub len: usize,
}

/// Marks a typed accessor applied to a payload narrower than the type it
/// reads; returned instead of reading out of bounds.
#[derive(Clone, Copy, PartialEq, Eq, Structural, Debug)]
pub struct TypeMismatch;

/// `len` rounded up to the next 4-byte boundary.
pub open spec fn nla_align4(len: int) -> int {
    len + ((4 - len % 4) % 4)
}

/// A table of `n` empty attribute slots.
pub open spec fn empty_table(n: nat) -> Seq<Option<AttrHandle>> {
    Seq::new(n, |i: int| None)
}

/// One parse pass over the records of `buf[pos..end]`, accumulating into `t`:
/// `None` when the stream is truncated mid-record or a record fails `policy`;
/// otherwise the table with a handle per stored type, last occurrence winning.
pub open spec fn spec_parse_range(
    buf: Seq<u8>,
    pos: int,
    end: int,
    maxtype: int,
    policy: Seq<PolicyEntry>,
    t: Seq<Option<AttrHandle>>,
) -> Option<Seq<Option<AttrHandle>>>
    decreases end - pos,
{
    if pos < 0 || end > buf.len() || pos >= end {
        if pos == end {
            Some(t)
        } else {
            None
        }
    } else if pos + 4 > end {
        None
    } else {
        let rec_len = spec_le16_at(buf, pos);
        let rty = spec_le16_at(buf, pos + 2) % 0x4000;
        if rec_len < 4 || pos + rec_len > end {
            None
        } else {
            let plen = rec_len - 4;
            let next = if pos + nla_align4(rec_len) > end {
                end
            } else {
                pos + nla_align4(rec_len)
            };
            if rty > maxtype {
                spec_parse_range(buf, next, end, maxtype, policy, t)
            } else if !policy_allows(policy, rty, plen) {
                None
            } else {
                spec_parse_range(
                    buf,
                    next,
                    end,
                    maxtype,
                    policy,
                    t.update(
                        rty,
                        Some(AttrHandle { offset: (pos + 4) as usize, len: plen as usize }),
                    ),
                )
            }
        }
    }
}

/// Every stored handle lies within the first `end` bytes of the buffer.
pub open spec fn handles_within(t: Seq<Option<AttrHandle>>, end: int) -> bool {
    forall|ty: int|
        0 <= ty < t.len() ==> (#[trigger] t[ty] matches Some(h) ==> h.offset + h.len <= end)
}

/// Every stored handle's payload length passes the policy for its type.
pub open spec fn handles_allowed(t: Seq<Option<AttrHandle>>, policy: Seq<PolicyEntry>) -> bool {
    forall|ty: int|
        0 <= ty < t.len() ==> (#[trigger] t[ty] matches Some(h) ==> policy_allows(
            policy,
            ty,
            h.len as int,
        ))
}

/// A successful parse never stores a handle that reaches past the parsed
/// region's end, nor one whose payload length fails its type's policy bounds.
pub proof fn lemma_parse_range_wf(
    buf: Seq<u8>,
    pos: int,
    end: int,
    maxtype: int,
    policy: Seq<PolicyEntry>,
    t: Seq<Option<AttrHandle>>,
)
    requires
        t.len() == maxtype + 1,
        handles_within(t, end),
        handles_allowed(t, policy),
    ensures
        spec_parse_range(buf, pos, end, maxtype, policy, t) matches Some(r) ==> {
            &&& r.len() == maxtype + 1
            &&& handles_within(r, end)
            &&& handles_allowed(r, policy)
        },
    decreases end - pos,
{
    if pos < 0 || end > buf.len() || pos >= end {
    } else if pos + 4 > end {
    } else {
        let rec_len = spec_le16_at(buf, pos);
        let rty = spec_le16_at(buf, pos + 2) % 0x4000;
        if rec_len < 4 || pos + rec_len > end {
        } else {
            let plen = rec_len - 4;
            let next = if pos + nla_align4(rec_len) > end {
                end
            } else {
                pos + nla_align4(rec_len)
            };
            if rty > maxtype {
                lemma_parse_range_wf(buf, next, end, maxtype, policy, t);
            } else if !policy_allows(policy, rty, plen) {
            } else {
                let t2 = t.update(
                    rty,
                    Some(AttrHandle { offset: (pos + 4) as usize, len: plen as usize }),
                );
                assert(handles_within(t2, end));
                assert(handles_allowed(t2, policy));
                lemma_parse_range_wf(buf, next, end, maxtype, policy, t2);
            }
        }
    }
}

/// The attribute table one parse pass builds: a slot per attribute type from
/// 0 to the maximum type the parse was asked for.
pub struct AttrTable {
    slots: Vec<Option<AttrHandle>>,
}

impl View for AttrTable {
    type V = Seq<Option<AttrHandle>>;

    closed spec fn view(&self) -> Seq<Option<AttrHandle>> {
        self.slots@
    }
}

impl AttrTable {
    /// The handle stored for attribute type `ty`, if any.
    pub fn get(&self, ty: u16) -> (r: Option<AttrHandle>)
        ensures
            r == if 0 <= ty < self@.len() {
                self@[ty as int]
            } else {
                None::<AttrHandle>
            },
    {
        if (ty as usize) < self.slots.len() {
            self.slots[ty as usize]
        } else {
            None
        }
    }

    /// How many attribute types the table covers.
    pub fn len(&self) -> (r: usize)
        ensures
            r == self@.len(),
    {
        self.slots.len()
    }
}

/// Parses the records of `buf[start..end]` into a table of `maxtype + 1`
/// slots; the verified core behind `parse_flat` and `parse_nested`.
#[verifier::rlimit(100)]
fn parse_range(buf: &[u8], start: usize, end: usize, maxtype: u16, policy: &NlAttrPolicy) -> (r:
    Option<AttrTable>)
    requires
        start <= end <= buf.len(),
    ensures
        r is Some <==> spec_parse_range(
            buf@,
            start as int,
            end as int,
            maxtype as int,
            policy@,
            empty_table((maxtype + 1) as nat),
        ) is Some,
        r matches Some(table) ==> {
            &&& Some(table@) == spec_parse_range(
                buf@,
                start as int,
                end as int,
                maxtype as int,
                policy@,
                empty_table((maxtype + 1) as nat),
            )
            &&& table@.len() == maxtype + 1
            &&& handles_within(table@, end as int)
            &&& handles_allowed(table@, policy@)
        },
{
    let ghost goal = spec_parse_range(
        buf@,
        start as int,
        end as int,
        maxtype as int,
        policy@,
        empty_table((maxtype + 1) as nat),
    );
    let mut slots: Vec<Option<AttrHandle>> = Vec::new();
    while slots.len() < maxtype as usize + 1
        invariant
            slots@.len() <= maxtype + 1,
            slots@ == empty_table(slots@.len() as nat),
        decreases maxtype + 1 - slots@.len(),
    {
        slots.push(None);
        assert(slots@ =~= empty_table(slots@.len() as nat));
    }
    let mut pos = start;
    while pos < end
        invariant
            start <= pos <= end <= buf@.len(),
            slots@.len() == maxtype + 1,
            handles_within(slots@, end as int),
            handles_allowed(slots@, policy@),
            goal == spec_parse_range(
                buf@,
                start as int,
                end as int,
                maxtype as int,
                policy@,
                empty_table((maxtype + 1) as nat),
            ),
            spec_parse_range(buf@, pos as int, end as int, maxtype as int, policy@, slots@)
                == goal,
        decreases end - pos,
    {
        let ghost pos0 = pos as int;
        let ghost t0 = slots@;
        if end - pos < 4 {
            proof {
                assert(spec_parse_range(buf@, pos0, end as int, maxtype as int, policy@, t0)
                    is None);
            }
            return None;
        }
        let rec_len = read_le16(buf, pos) as usize;
        let rty = read_le16(buf, pos + 2) % 0x4000;
        if rec_len < 4 || rec_len > end - pos {
            proof {
                assert(spec_parse_range(buf@, pos0, end as int, maxtype as int, policy@, t0)
                    is None);
            }
            return None;
        }
        let plen = rec_len - 4;
        let pad = (4 - rec_len % 4) % 4;
        let next = if pad <= end - (pos + rec_len) {
            pos + rec_len + pad
        } else {
            end
        };
        proof {
            assert(next == if pos0 + nla_align4(rec_len as int) > end {
                end as int
            } else {
                pos0 + nla_align4(rec_len as int)
            });
        }
        if rty <= maxtype {
            if !policy.check(rty, plen) {
                proof {
                    assert(spec_parse_range(buf@, pos0, end as int, maxtype as int, policy@, t0)
                        is None);
                }
                return None;
            }
            slots.set(rty as usize, Some(AttrHandle { offset: pos + 4, len: plen }));
            proof {
                assert(slots@ == t0.update(
                    rty as int,
                    Some(AttrHandle { offset: (pos0 + 4) as usize, len: plen as usize }),
                ));
                assert(spec_parse_range(buf@, pos0, end as int, maxtype as int, policy@, t0)
                    == spec_parse_range(
                    buf@,
                    next as int,
                    end as int,
                    maxtype as int,
                    policy@,
                    slots@,
                ));
            }
        } else {
            proof {
                assert(spec_parse_range(buf@, pos0, end as int, maxtype as int, policy@, t0)
                    == spec_parse_range(
                    buf@,
                    next as int,
                    end as int,
                    maxtype as int,
                    policy@,
                    slots@,
                ));
            }
        }
        pos = next;
    }
    Some(AttrTable { slots })
}

/// Decodes a whole buffer as one TLV attribute stream.
pub fn parse_flat(buf: &[u8], maxtype: u16, policy: &NlAttrPolicy) -> (r: Option<AttrTable>)
    ensures
        r is Some <==> spec_parse_range(
            buf@,
            0,
            buf@.len() as int,
            maxtype as int,
            policy@,
            empty_table((maxtype + 1) as nat),
        ) is Some,
        r matches Some(table) ==> {
            &&& Some(table@) == spec_parse_range(
                buf@,
                0,
                buf@.len() as int,
                maxtype as int,
                policy@,
                empty_table((maxtype + 1) as nat),
            )
            &&& table@.len() == maxtype + 1
            &&& handles_within(table@, buf@.len() as int)
            &&& handles_allowed(table@, policy@)
        },
{
    parse_range(buf, 0, buf.len(), maxtype, policy)
}

/// Decodes the payload of a single attribute as its own TLV container.
/// Handles in the result point into `buf` itself.
pub fn parse_nested(buf: &[u8], parent: AttrHandle, maxtype: u16, policy: &NlAttrPolicy) -> (r:
    Option<AttrTable>)
    requires
        parent.offset + parent.len <= buf.len(),
    ensures
        r is Some <==> spec_parse_range(
            buf@,
            parent.offset as int,
            parent.offset + parent.len,
            maxtype as int,
            policy@,
            empty_table((maxtype + 1) as nat),
        ) is Some,
        r matches Some(table) ==> {
            &&& Some(table@) == spec_parse_range(
                buf@,
                parent.offset as int,
                parent.offset + parent.len,
                maxtype as int,
                policy@,
                empty_table((maxtype + 1) as nat),
            )
            &&& table@.len() == maxtype + 1
            &&& handles_within(table@, parent.offset + parent.len)
            &&& handles_allowed(table@, policy@)
        },
{
    parse_range(buf, parent.offset, parent.offset + parent.len, maxtype, policy)
}

/// Reads a handle's payload as an unsigned 8-bit value; `TypeMismatch` when
/// the payload is narrower.
pub fn get_u8(buf: &[u8], h: AttrHandle) -> (r: Result<u8, TypeMismatch>)
    requires
        h.offset + h.len <= buf.len(),
    ensures
        r == if h.len >= 1 {
            Ok::<u8, TypeMismatch>(buf@[h.offset as int])
        } else {
            Err::<u8, TypeMismatch>(TypeMismatch)
        },
{
    if h.len >= 1 {
        Ok(buf[h.offset])
    } else {
        Err(TypeMismatch)
    }
}

/// Reads a handle's payload as an unsigned little-endian 16-bit value;
/// `TypeMismatch` when the payload is narrower.
pub fn get_u16(buf: &[u8], h: AttrHandle) -> (r: Result<u16, TypeMismatch>)
    requires
        h.offset + h.len <= buf.len(),
    ensures
        r == if h.len >= 2 {
            Ok::<u16, TypeMismatch>(spec_le16_at(buf@, h.offset as int) as u16)
        } else {
            Err::<u16, TypeMismatch>(TypeMismatch)
        },
{
    if h.len >= 2 {
        Ok(read_le16(buf, h.offset))
    } else {
        Err(TypeMismatch)
    }
}

/// Reads a handle's payload as an unsigned little-endian 32-bit value;
/// `TypeMismatch` when the payload is narrower.
pub fn get_u32(buf: &[u8], h: AttrHandle) -> (r: Result<u32, TypeMismatch>)
    requires
        h.offset + h.len <= buf.len(),
    ensures
        r == if h.len >= 4 {
            Ok::<u32, TypeMismatch>(spec_le32_at(buf@, h.offset as int) as u32)
        } else {
            Err::<u32, TypeMismatch>(TypeMismatch)
        },
{
    if h.len >= 4 {
        Ok(read_le32(buf, h.offset))
    } else {
        Err(TypeMismatch)
    }
}

/// Reads a handle's payload as a signed little-endian 32-bit value;
/// `TypeMismatch` when the payload is narrower.
pub fn get_s32(buf: &[u8], h: AttrHandle) -> (r: Result<i32, TypeMismatch>)
    requires
        h.offset + h.len <= buf.len(),
    ensures
        r == if h.len >= 4 {
            Ok::<i32, TypeMismatch>(
                spec_as_signed32(spec_le32_at(buf@, h.offset as int)) as i32,
            )
        } else {
            Err::<i32, TypeMismatch>(TypeMismatch)
        },
{
    if h.len >= 4 {
        Ok(read_le32_signed(buf, h.offset))
    } else {
        Err(TypeMismatch)
    }
}

/// Borrows a handle's raw payload bytes.
pub fn get_bytes<'a>(buf: &'a [u8], h: AttrHandle) -> (r: &'a [u8])
    requires
        h.offset + h.len <= buf.len(),
    ensures
        r@ == buf@.subrange(h.offset as int, h.offset + h.len),
{
    slice_subrange(buf, h.offset, h.offset + h.len)
}

} // verus!
