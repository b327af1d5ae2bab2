use orbiq_system_monitor::sensors::{parse_reading, Reading};
use orbiq_system_monitor::text::{
    contains, ends_with, last_segment, map_char, replace, starts_with, trim,
    trim_char,
};

#[test]
fn substring_search() {
    assert!(contains("k10temp_1", "k10temp"));
    assert!(contains("abc", ""));
    assert!(contains("", ""));
    assert!(!contains("", "a"));
    assert!(!contains("nvm", "nvme"));
    assert!(starts_with("temp1", "temp"));
    assert!(!starts_with("tem", "temp"));
    assert!(ends_with("temp1_input", "_input"));
    assert!(!ends_with("put", "_input"));
}

#[test]
fn replace_is_left_to_right_without_overlap() {
    assert_eq!(replace("aaa", "aa", "b"), "ba");
    assert_eq!(replace("a_b_c", "_", " "), "a b c");
    assert_eq!(replace("", "x", "y"), "");
    assert_eq!(replace("temptemp_input", "temp", ""), "_input");
}

#[test]
fn last_segment_after_separator() {
    assert_eq!(last_segment("nvme_composite_1", '_'), "1");
    assert_eq!(last_segment("nvme", '_'), "nvme");
    assert_eq!(last_segment("nvme_", '_'), "");
}

#[test]
fn trimming() {
    assert_eq!(trim("  42 \n"), "42");
    assert_eq!(trim("\n\t"), "");
    assert_eq!(trim_char("__a_b__", '_'), "a_b");
    assert_eq!(trim_char("___", '_'), "");
    assert_eq!(map_char("/a b/", '/', '_'), "_a b_");
}

#[test]
fn reading_parsing() {
    let r = |units: i64, decimals: u32| Some(Reading { units, decimals });
    assert_eq!(parse_reading("42500\n"), r(42500, 0));
    assert_eq!(parse_reading(" -17 "), r(-17, 0));
    assert_eq!(parse_reading("+8"), r(8, 0));
    assert_eq!(parse_reading("12.5"), r(125, 1));
    assert_eq!(parse_reading("1."), r(1, 0));
    assert_eq!(parse_reading(".5"), r(5, 1));
    assert_eq!(parse_reading("-0.25"), r(-25, 2));
    assert_eq!(parse_reading("9223372036854775807"), r(i64::MAX, 0));
    assert_eq!(parse_reading("-9223372036854775808"), r(i64::MIN, 0));
    assert_eq!(parse_reading("0.000000000000000001"), r(1, 18));
    assert_eq!(parse_reading("0.0000000000000000001"), None);
    assert_eq!(parse_reading("9223372036854775808"), None);
    assert_eq!(parse_reading("99999999999999999999999"), None);
    assert_eq!(parse_reading("4 2"), None);
    assert_eq!(parse_reading("1.2.3"), None);
    assert_eq!(parse_reading("."), None);
    assert_eq!(parse_reading("-"), None);
    assert_eq!(parse_reading(""), None);
    assert_eq!(parse_reading("1e3"), None);
    assert_eq!(parse_reading("inf"), None);
}
