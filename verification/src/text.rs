//! Text helpers.

use vstd::prelude::*;
use vstd::string::StringSliceAdditionalSpecFns;

verus! {

/// Whether `prefix`'s bytes start `s`'s bytes and end on a character
/// boundary of `s`, so that the remainder is itself a string.
pub open spec fn spec_consumable(s: Seq<u8>, prefix: Seq<u8>) -> bool {
    prefix.len() <= s.len() && prefix == s.subrange(0, prefix.len() as int)
        && vstd::utf8::is_char_boundary(s, prefix.len() as int)
}

/// When `string` starts with `prefix`, advances it past the prefix and
/// returns true; otherwise leaves it unchanged and returns false.
pub fn match_consume(string: &mut &str, prefix: &str) -> (r: bool)
    ensures
        r == spec_consumable(old(string).spec_bytes(), prefix.spec_bytes()),
        r ==> final(string).spec_bytes() == old(string).spec_bytes().skip(
            prefix.spec_bytes().len() as int,
        ),
        !r ==> *final(string) == *old(string),
{
    let sb: &[u8] = string.as_bytes();
    let pb: &[u8] = prefix.as_bytes();
    if pb.len() > sb.len() {
        return false;
    }
    let mut i: usize = 0;
    while i < pb.len()
        invariant
            i <= pb.len() <= sb.len(),
            sb@ == string.spec_bytes(),
            pb@ == prefix.spec_bytes(),
            forall|j: int| 0 <= j < i ==> sb@[j] == pb@[j],
        decreases pb.len() - i,
    {
        if sb[i] != pb[i] {
            proof {
                assert(pb@ != sb@.subrange(0, pb@.len() as int));
            }
            return false;
        }
        i = i + 1;
    }
    assert(pb@ =~= sb@.subrange(0, pb@.len() as int));
    if !string.is_char_boundary(pb.len()) {
        return false;
    }
    let (_, rest) = string.split_at(pb.len());
    proof {
        assert(rest.spec_bytes() =~= string.spec_bytes().skip(pb@.len() as int));
    }
    *string = rest;
    true
}

} // verus!
