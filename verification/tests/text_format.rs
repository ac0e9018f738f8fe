use barust::text::{
    contains, i64_to_string, parse_u64, replace, str_eq, tenths_to_string, trim, u64_to_string,
};
use barust::util::{bytes_to_closest, percent_of, percentage_to_index};

#[test]
fn replace_single_token() {
    let r = replace("charge: %c%", "%c", "42");
    assert_eq!(r, "charge: 42%");
}

#[test]
fn replace_every_occurrence() {
    let r = replace("%p and %p", "%p", "7");
    assert_eq!(r, "7 and 7");
}

#[test]
fn replace_absent_token_changes_nothing() {
    let r = replace("steady", "%c", "42");
    assert_eq!(r, "steady");
}

#[test]
fn replace_with_empty_replacement_deletes() {
    let r = replace("a%ib", "%i", "");
    assert_eq!(r, "ab");
}

#[test]
fn replace_handles_wide_characters() {
    let r = replace("%i 10%", "%i", "\u{f0e7}");
    assert_eq!(r, "\u{f0e7} 10%");
}

#[test]
fn decimal_rendering() {
    assert_eq!(u64_to_string(0), "0");
    assert_eq!(u64_to_string(7), "7");
    assert_eq!(u64_to_string(12345), "12345");
    assert_eq!(u64_to_string(u64::MAX), "18446744073709551615");
}

#[test]
fn signed_rendering() {
    assert_eq!(i64_to_string(-5), "-5");
    assert_eq!(i64_to_string(0), "0");
    assert_eq!(i64_to_string(i64::MIN), "-9223372036854775808");
}

#[test]
fn tenths_rendering() {
    assert_eq!(tenths_to_string(421), "42.1");
    assert_eq!(tenths_to_string(0), "0.0");
    assert_eq!(tenths_to_string(1000), "100.0");
}

#[test]
fn parse_round_trips() {
    assert_eq!(parse_u64("42"), Some(42));
    assert_eq!(parse_u64("0"), Some(0));
    assert_eq!(parse_u64("18446744073709551615"), Some(u64::MAX));
}

#[test]
fn parse_rejects_junk() {
    assert_eq!(parse_u64(""), None);
    assert_eq!(parse_u64("4x2"), None);
    assert_eq!(parse_u64("-3"), None);
    assert_eq!(parse_u64("18446744073709551616"), None);
}

#[test]
fn trim_strips_ascii_whitespace() {
    assert_eq!(trim(" 42\n"), "42");
    assert_eq!(trim("\t\r\n "), "");
    assert_eq!(trim("a b"), "a b");
}

#[test]
fn substring_search() {
    assert!(contains("power_BAT0", "BAT"));
    assert!(!contains("AC", "BAT"));
    assert!(str_eq("Charging", "Charging"));
    assert!(!str_eq("Charging", "Discharging"));
}

#[test]
fn percentage_maps_to_icon_index() {
    assert_eq!(percentage_to_index(0, (0, 9)), 0);
    assert_eq!(percentage_to_index(42, (0, 9)), 4);
    assert_eq!(percentage_to_index(100, (0, 9)), 9);
    assert_eq!(percentage_to_index(250, (0, 9)), 9);
    assert_eq!(percentage_to_index(50, (0, 2)), 1);
}

#[test]
fn percent_rounds_to_nearest() {
    assert_eq!(percent_of(42, 100), Some(42));
    assert_eq!(percent_of(425, 1000), Some(43));
    assert_eq!(percent_of(424, 1000), Some(42));
    assert_eq!(percent_of(1, 0), None);
}

#[test]
fn byte_counts_scale_to_closest_unit() {
    assert_eq!(bytes_to_closest(0), "0B");
    assert_eq!(bytes_to_closest(1023), "1023B");
    assert_eq!(bytes_to_closest(2048), "2KB");
    assert_eq!(bytes_to_closest(5 * 1024 * 1024), "5MB");
    assert_eq!(bytes_to_closest(3 * 1024 * 1024 * 1024), "3GB");
    assert_eq!(bytes_to_closest(7 * 1024 * 1024 * 1024 * 1024), "7TB");
}
