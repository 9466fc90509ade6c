use wlaninfo::signal::nl80211_xbm_to_percent;

#[test]
fn ceiling_reached_at_minus_20_dbm() {
    assert_eq!(nl80211_xbm_to_percent(-2000), 100);
    assert_eq!(nl80211_xbm_to_percent(-1000), 100);
    assert_eq!(nl80211_xbm_to_percent(0), 100);
}

#[test]
fn floor_reached_at_noise_floor() {
    assert_eq!(nl80211_xbm_to_percent(-9000), 30);
    assert_eq!(nl80211_xbm_to_percent(-12000), 30);
    assert_eq!(nl80211_xbm_to_percent(i32::MIN), 30);
}

#[test]
fn interior_values() {
    assert_eq!(nl80211_xbm_to_percent(-3000), 90);
    assert_eq!(nl80211_xbm_to_percent(-4500), 75);
    assert_eq!(nl80211_xbm_to_percent(-5500), 65);
    assert_eq!(nl80211_xbm_to_percent(-7000), 50);
}

#[test]
fn monotonic_over_samples() {
    let samples = [
        i32::MIN,
        -12000,
        -9001,
        -9000,
        -8999,
        -7000,
        -5500,
        -4500,
        -3000,
        -2001,
        -2000,
        -1999,
        0,
        i32::MAX,
    ];
    let mut last = 0u8;
    for &raw in samples.iter() {
        let q = nl80211_xbm_to_percent(raw);
        assert!(q >= last, "quality fell from {} to {} at {}", last, q, raw);
        assert!((30..=100).contains(&q));
        last = q;
    }
}
