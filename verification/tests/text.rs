use wlaninfo::text::match_consume;

#[test]
fn consumes_matching_prefix() {
    let mut line = "POWER_SUPPLY_STATUS=Full";
    assert!(match_consume(&mut line, "POWER_SUPPLY_"));
    assert_eq!(line, "STATUS=Full");
    assert!(match_consume(&mut line, "STATUS="));
    assert_eq!(line, "Full");
}

#[test]
fn leaves_string_on_mismatch() {
    let mut line = "CHARGE_NOW=100";
    assert!(!match_consume(&mut line, "ENERGY_NOW="));
    assert_eq!(line, "CHARGE_NOW=100");
}

#[test]
fn empty_prefix_always_matches() {
    let mut line = "abc";
    assert!(match_consume(&mut line, ""));
    assert_eq!(line, "abc");
}

#[test]
fn longer_prefix_never_matches() {
    let mut line = "ab";
    assert!(!match_consume(&mut line, "abc"));
    assert_eq!(line, "ab");
}

#[test]
fn multibyte_text_consumed_on_boundaries() {
    let mut line = "héllo";
    assert!(match_consume(&mut line, "hé"));
    assert_eq!(line, "llo");
    let mut line2 = "héllo";
    assert!(!match_consume(&mut line2, "hè"));
    assert_eq!(line2, "héllo");
}
