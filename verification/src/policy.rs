//! Per-attribute-type validation policy for the TLV parser.
//!
//! A policy maps an attribute type id to an expected value kind and an
//! allowed payload-length range. Types without an entry (or beyond the table)
//! are unconstrained. A zero `minlen` defers to the kind's natural width; a
//! zero `maxlen` means unbounded.

use vstd::prelude::*;

verus! {

/// The value kinds the parser distinguishes; only the subset this crate
/// consumes of the netlink attribute kinds.
#[derive(Clone, Copy, PartialEq, Eq, Structural, Debug)]
pub enum NlaType {
    Unspec,
    U8,
    U16,
    U32,
    Nested,
}

/// One policy row: expected kind and allowed payload-length range.
#[derive(Clone, Copy, PartialEq, Eq, Structural, Debug)]
pub struct PolicyEntry {
    pub kind: NlaType,
    pub minlen: u16,
    pub maxlen: u16,
}

/// The natural payload width of a kind, used when a row's `minlen` is zero.
pub open spec fn spec_kind_min(kind: NlaType) -> int {
    match kind {
        NlaType::Unspec => 0,
        NlaType::U8 => 1,
        NlaType::U16 => 2,
        NlaType::U32 => 4,
        NlaType::Nested => 4,
    }
}

/// Whether a payload of length `plen` for attribute type `ty` passes `policy`.
/// Types without a row are unconstrained.
pub open spec fn policy_allows(policy: Seq<PolicyEntry>, ty: int, plen: int) -> bool {
    0 <= ty < policy.len() ==> {
        let e = policy[ty];
        let low = if e.minlen > 0 {
            e.minlen as int
        } else {
            spec_kind_min(e.kind)
        };
        plen >= low && (e.maxlen == 0 || plen <= e.maxlen)
    }
}

/// A policy of `n` unconstrained rows.
pub open spec fn blank_policy(n: nat) -> Seq<PolicyEntry> {
    Seq::new(n, |i: int| PolicyEntry { kind: NlaType::Unspec, minlen: 0, maxlen: 0 })
}

/// Attribute-type validation policy: one row per attribute type id below the
/// table's size.
pub struct NlAttrPolicy {
    pub(crate) entries: Vec<PolicyEntry>,
}

impl View for NlAttrPolicy {
    type V = Seq<PolicyEntry>;

    closed spec fn view(&self) -> Seq<PolicyEntry> {
        self.entries@
    }
}

impl NlAttrPolicy {
    /// A policy of `size` unconstrained rows.
    pub fn new(size: usize) -> (r: Self)
        ensures
            r@ == blank_policy(size as nat),
    {
        let mut entries: Vec<PolicyEntry> = Vec::new();
        let blank = PolicyEntry { kind: NlaType::Unspec, minlen: 0, maxlen: 0 };
        while entries.len() < size
            invariant
                entries@.len() <= size,
                forall|i: int| 0 <= i < entries@.len() ==> entries@[i] == blank,
            decreases size - entries@.len(),
        {
            entries.push(blank);
        }
        assert(entries@ =~= blank_policy(size as nat));
        NlAttrPolicy { entries }
    }

    /// Sets the expected kind of attribute type `value`, keeping its length
    /// range.
    pub fn set_type(&mut self, value: usize, type_: NlaType)
        requires
            value < old(self)@.len(),
        ensures
            final(self)@ == old(self)@.update(
                value as int,
                PolicyEntry { kind: type_, ..old(self)@[value as int] },
            ),
    {
        let e = self.entries[value];
        self.entries.set(value, PolicyEntry { kind: type_, minlen: e.minlen, maxlen: e.maxlen });
    }

    /// How many attribute types the policy covers.
    pub fn len(&self) -> (r: usize)
        ensures
            r == self@.len(),
    {
        self.entries.len()
    }

    /// Whether a payload of length `plen` for attribute type `ty` passes this
    /// policy.
    pub fn check(&self, ty: u16, plen: usize) -> (r: bool)
        ensures
            r == policy_allows(self@, ty as int, plen as int),
    {
        if (ty as usize) < self.entries.len() {
            let e = self.entries[ty as usize];
            let low = if e.minlen > 0 {
                e.minlen
            } else {
                kind_min(e.kind)
            };
            plen >= low as usize && (e.maxlen == 0 || plen <= e.maxlen as usize)
        } else {
            true
        }
    }
}

/// The natural payload width of a kind, as executable code.
pub(crate) fn kind_min(kind: NlaType) -> (r: u16)
    ensures
        r == spec_kind_min(kind),
{
    match kind {
        NlaType::Unspec => 0,
        NlaType::U8 => 1,
        NlaType::U16 => 2,
        NlaType::U32 => 4,
        NlaType::Nested => 4,
    }
}

} // verus!
