use macro_runner::text::base_name;
use macro_runner::text::format_i32;
use macro_runner::text::format_u32;
use macro_runner::text::trim_spaces;

#[test]
fn trim_strips_both_ends() {
    assert_eq!(trim_spaces(" 1234\n"), "1234");
    assert_eq!(trim_spaces("\t 42 \r\n"), "42");
}

#[test]
fn trim_keeps_untouched_text() {
    assert_eq!(trim_spaces("volume-up"), "volume-up");
    assert_eq!(trim_spaces("a b"), "a b");
}

#[test]
fn trim_of_blank_is_empty() {
    assert_eq!(trim_spaces(""), "");
    assert_eq!(trim_spaces(" \t\r\n "), "");
}

#[test]
fn base_name_takes_final_component() {
    assert_eq!(base_name("/usr/bin/firefox"), Some("firefox".to_string()));
    assert_eq!(base_name("firefox"), Some("firefox".to_string()));
    assert_eq!(base_name("a/b/c.sh"), Some("c.sh".to_string()));
}

#[test]
fn base_name_absent_for_empty_or_trailing_separator() {
    assert_eq!(base_name(""), None);
    assert_eq!(base_name("/usr/bin/"), None);
    assert_eq!(base_name("/"), None);
}

#[test]
fn format_u32_exact_digits() {
    assert_eq!(format_u32(0), "0");
    assert_eq!(format_u32(7), "7");
    assert_eq!(format_u32(10), "10");
    assert_eq!(format_u32(4095), "4095");
    assert_eq!(format_u32(u32::MAX), "4294967295");
}

#[test]
fn format_i32_exact_digits_and_sign() {
    assert_eq!(format_i32(0), "0");
    assert_eq!(format_i32(3), "3");
    assert_eq!(format_i32(-17), "-17");
    assert_eq!(format_i32(i32::MAX), "2147483647");
    assert_eq!(format_i32(i32::MIN), "-2147483648");
}
