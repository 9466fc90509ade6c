//! Network-name extraction from an information-elements stream.
//!
//! The stream is scanned forward two bytes at a time until a position whose
//! first byte is the network-name element id (zero). The element's second
//! byte declares its payload length; when that length fits in the remaining
//! bytes, the payload is decoded permissively as text. An exhausted stream
//! or an inconsistent length yields no name.

use vstd::prelude::*;
use vstd::slice::slice_subrange;

verus! {

/// The text that permissive UTF-8 decoding yields for a byte sequence; a
/// function of the bytes alone.
pub uninterp spec fn utf8_lossy_of(bytes: Seq<u8>) -> Seq<char>;

/// Relies on String::from_utf8_lossy: decodes bytes permissively as text,
/// replacing invalid sequences and never rejecting; the result depends on
/// the bytes alone.
#[verifier::external_body]
fn utf8_lossy(bytes: &[u8]) -> (r: String)
    ensures
        r@ == utf8_lossy_of(bytes@),
{
    String::from_utf8_lossy(bytes).into_owned()
}

/// The network name held by an information-elements stream: the payload of
/// the first name element found scanning two bytes at a time, absent when
/// the stream is exhausted or the element's length outruns the stream.
pub open spec fn spec_find_ssid(ies: Seq<u8>) -> Option<Seq<char>>
    decreases ies.len(),
{
    if ies.len() > 2 && ies[0] != 0 {
        spec_find_ssid(ies.skip(2))
    } else if ies.len() >= 2 && ies[0] == 0 && ies[1] + 2 <= ies.len() {
        Some(utf8_lossy_of(ies.subrange(2, ies[1] + 2)))
    } else {
        None
    }
}

/// Extracts the network name from an information-elements stream.
pub fn find_ssid(ies: &[u8]) -> (r: Option<String>)
    ensures
        r is Some <==> spec_find_ssid(ies@) is Some,
        r matches Some(s) ==> spec_find_ssid(ies@) == Some(s@),
{
    let n = ies.len();
    let mut k: usize = 0;
    proof {
        assert(ies@.skip(0) =~= ies@);
    }
    while n - k > 2 && ies[k] != 0
        invariant
            k <= n,
            n == ies@.len(),
            spec_find_ssid(ies@.skip(k as int)) == spec_find_ssid(ies@),
        decreases n - k,
    {
        proof {
            assert(ies@.skip(k as int).skip(2) =~= ies@.skip(k + 2));
        }
        k = k + 2;
    }
    let ghost tail = ies@.skip(k as int);
    if n - k >= 2 {
        if ies[k] == 0 {
            let l = ies[k + 1] as usize;
            if l + 2 <= n - k {
                let payload = slice_subrange(ies, k + 2, k + 2 + l);
                proof {
                    assert(payload@ =~= tail.subrange(2, tail[1] + 2));
                }
                Some(utf8_lossy(payload))
            } else {
                None
            }
        } else {
            None
        }
    } else {
        None
    }
}

/// Extracting the network name is a function of the byte stream alone: two
/// results drawn from the same stream always agree, so repeated extraction
/// returns the same value.
pub proof fn lemma_find_ssid_deterministic(
    ies: Seq<u8>,
    r1: Option<Seq<char>>,
    r2: Option<Seq<char>>,
)
    requires
        r1 == spec_find_ssid(ies),
        r2 == spec_find_ssid(ies),
    ensures
        r1 == r2,
{
}

} // verus!
