//! Outbound request construction.
//!
//! A generic-netlink request is a 16-byte netlink header (total length,
//! message type = family id, flags, sequence, port), a 4-byte generic-netlink
//! header (command, version, reserved), then TLV attributes, each padded to a
//! 4-byte boundary. The total-length field is kept current as attributes are
//! appended.

use vstd::prelude::*;

use crate::bytes::spec_le16;
use crate::bytes::spec_le32;
use crate::bytes::push_le16;
use crate::bytes::push_le32;
use crate::bytes::set_le32;

verus! {

/// `n` zero bytes.
pub open spec fn zero_bytes(n: nat) -> Seq<u8> {
    Seq::new(n, |i: int| 0u8)
}

/// The padding that takes a payload of length `len` to a 4-byte boundary.
pub open spec fn pad_len(len: int) -> int {
    (4 - len % 4) % 4
}

/// A message's bytes with the leading total-length field rewritten to the
/// message's actual length.
pub open spec fn spec_patch_len(m: Seq<u8>) -> Seq<u8>
    recommends
        4 <= m.len() <= u32::MAX,
{
    spec_le32(m.len() as u32) + m.skip(4)
}

/// The 20 header bytes of a generic-netlink message carrying no attributes
/// yet: netlink header, then command, version and the reserved pair.
pub open spec fn spec_genl_header(
    port: u32,
    seq: u32,
    family: u16,
    flags: u16,
    cmd: u8,
    version: u8,
) -> Seq<u8> {
    spec_le32(20) + spec_le16(family) + spec_le16(flags) + spec_le32(seq) + spec_le32(port)
        + seq![cmd, version, 0u8, 0u8]
}

/// `m` with one attribute record appended (header, payload, padding) and the
/// total-length field patched.
pub open spec fn spec_attr_append(m: Seq<u8>, attrtype: u16, payload: Seq<u8>) -> Seq<u8>
    recommends
        payload.len() + 4 <= u16::MAX,
        m.len() + 8 + payload.len() <= u32::MAX,
{
    spec_patch_len(
        m + spec_le16((payload.len() + 4) as u16) + spec_le16(attrtype) + payload + zero_bytes(
            pad_len(payload.len() as int) as nat,
        ),
    )
}

/// An owned outbound request buffer; consumed by the caller's send.
pub struct NlMsg {
    buf: Vec<u8>,
}

impl View for NlMsg {
    type V = Seq<u8>;

    closed spec fn view(&self) -> Seq<u8> {
        self.buf@
    }
}

impl NlMsg {
    /// An empty message.
    pub fn new() -> (r: Self)
        ensures
            r@ == Seq::<u8>::empty(),
    {
        NlMsg { buf: Vec::new() }
    }

    /// Writes the netlink and generic-netlink headers of a fresh message.
    pub fn genl_put(&mut self, port: u32, seq: u32, family: u16, flags: u16, cmd: u8, version: u8)
        requires
            old(self)@.len() == 0,
        ensures
            final(self)@ == spec_genl_header(port, seq, family, flags, cmd, version),
    {
        push_le32(&mut self.buf, 20);
        push_le16(&mut self.buf, family);
        push_le16(&mut self.buf, flags);
        push_le32(&mut self.buf, seq);
        push_le32(&mut self.buf, port);
        self.buf.push(cmd);
        self.buf.push(version);
        self.buf.push(0);
        self.buf.push(0);
        assert(self.buf@ =~= spec_genl_header(port, seq, family, flags, cmd, version));
    }

    /// Appends one attribute record with the given payload and re-patches the
    /// total length. The bounds are the wire format's: a 16-bit attribute
    /// length and a 32-bit message length.
    pub fn attr_put(&mut self, attrtype: u16, data: &[u8])
        requires
            data.len() + 4 <= u16::MAX,
            old(self)@.len() + 8 + data.len() <= u32::MAX,
        ensures
            final(self)@ == spec_attr_append(old(self)@, attrtype, data@),
    {
        let ghost m = self.buf@;
        push_le16(&mut self.buf, (data.len() + 4) as u16);
        push_le16(&mut self.buf, attrtype);
        let ghost base = self.buf@;
        let mut i: usize = 0;
        while i < data.len()
            invariant
                i <= data.len(),
                self.buf@ == base + data@.subrange(0, i as int),
            decreases data.len() - i,
        {
            self.buf.push(data[i]);
            i = i + 1;
            assert(self.buf@ =~= base + data@.subrange(0, i as int));
        }
        assert(self.buf@ =~= base + data@);
        let ghost padded = self.buf@;
        let pad = (4 - data.len() % 4) % 4;
        let mut k: usize = 0;
        while k < pad
            invariant
                k <= pad,
                self.buf@ == padded + zero_bytes(k as nat),
            decreases pad - k,
        {
            self.buf.push(0);
            k = k + 1;
            assert(self.buf@ =~= padded + zero_bytes(k as nat));
        }
        let total = self.buf.len();
        set_le32(&mut self.buf, 0, total as u32);
        assert(self.buf@ =~= spec_attr_append(m, attrtype, data@));
    }

    /// Appends one attribute whose payload is a 32-bit value.
    pub fn attr_put_u32(&mut self, attrtype: u16, value: u32)
        requires
            old(self)@.len() + 12 <= u32::MAX,
        ensures
            final(self)@ == spec_attr_append(old(self)@, attrtype, spec_le32(value)),
    {
        let mut payload: Vec<u8> = Vec::new();
        push_le32(&mut payload, value);
        self.attr_put(attrtype, payload.as_slice());
    }

    /// The message's bytes, for the caller to hand to its socket.
    pub fn as_bytes(&self) -> (r: &[u8])
        ensures
            r@ == self@,
    {
        self.buf.as_slice()
    }

    /// How many bytes the message holds.
    pub fn len(&self) -> (r: usize)
        ensures
            r == self@.len(),
    {
        self.buf.len()
    }
}

} // verus!
