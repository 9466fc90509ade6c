//! Signal-strength conversion.
//!
//! The kernel reports signal strength in mBm (hundredths of a dBm). The
//! quality scale clamps the dBm value to the band between a noise floor of
//! -90 dBm and a ceiling of -20 dBm and maps that band onto 100 down to 30,
//! in fixed-point arithmetic over the raw mBm value.

use vstd::prelude::*;
use vstd::arithmetic::div_mod::lemma_div_is_ordered;

verus! {

/// The quality percentage for a raw signal strength in mBm:
/// `100 - 70 * (-20 dBm - clamped dBm) / (-20 dBm - -90 dBm)`, computed in
/// mBm so that no precision is lost before the division.
pub open spec fn spec_xbm_to_percent(mbm: int) -> int {
    let c = if mbm < -9000 {
        -9000int
    } else if mbm > -2000 {
        -2000int
    } else {
        mbm
    };
    100 - 70 * (-2000 - c) / 7000
}

/// Converts a raw mBm signal strength to a quality percentage.
pub fn nl80211_xbm_to_percent(xbm: i32) -> (r: u8)
    ensures
        r == spec_xbm_to_percent(xbm as int),
        30 <= r <= 100,
{
    let c: i32 = if xbm < -9000 {
        -9000
    } else if xbm > -2000 {
        -2000
    } else {
        xbm
    };
    let spread: i32 = 70 * (-2000 - c);
    proof {
        assert(0 <= spread <= 490000);
        lemma_div_is_ordered(0, spread as int, 7000);
        lemma_div_is_ordered(spread as int, 490000, 7000);
    }
    let q: i32 = 100 - spread / 7000;
    q as u8
}

/// Quality is monotonic non-decreasing in raw signal strength.
pub proof fn lemma_quality_monotonic(a: int, b: int)
    requires
        a <= b,
    ensures
        spec_xbm_to_percent(a) <= spec_xbm_to_percent(b),
{
    let ca = if a < -9000 {
        -9000int
    } else if a > -2000 {
        -2000int
    } else {
        a
    };
    let cb = if b < -9000 {
        -9000int
    } else if b > -2000 {
        -2000int
    } else {
        b
    };
    assert(ca <= cb);
    lemma_div_is_ordered(70 * (-2000 - cb), 70 * (-2000 - ca), 7000);
}

/// The quality scale's anchors: every value lies between 30 and 100, the
/// ceiling is reached from -20 dBm up, and the noise floor yields 30.
pub proof fn lemma_quality_range(mbm: int)
    ensures
        30 <= spec_xbm_to_percent(mbm) <= 100,
        mbm >= -2000 ==> spec_xbm_to_percent(mbm) == 100,
        mbm <= -9000 ==> spec_xbm_to_percent(mbm) == 30,
{
    let c = if mbm < -9000 {
        -9000int
    } else if mbm > -2000 {
        -2000int
    } else {
        mbm
    };
    lemma_div_is_ordered(0, 70 * (-2000 - c), 7000);
    lemma_div_is_ordered(70 * (-2000 - c), 490000, 7000);
    assert(490000int / 7000 == 70) by (nonlinear_arith);
    assert(0int / 7000 == 0) by (nonlinear_arith);
}

} // verus!
