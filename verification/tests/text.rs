use hawkbit_fleet::text::append_decimal;
use hawkbit_fleet::text::i64_to_decimal;
use hawkbit_fleet::text::opt_str_is;
use hawkbit_fleet::text::str_eq;
use hawkbit_fleet::text::trim_end_char;
use hawkbit_fleet::text::trim_start_char;
use hawkbit_fleet::text::u64_to_decimal;

#[test]
fn strings_compare_by_content() {
    assert!(str_eq("", ""));
    assert!(str_eq("update", "update"));
    assert!(!str_eq("update", "updatE"));
    assert!(!str_eq("update", "updates"));
    assert!(!str_eq("", "x"));
    assert!(str_eq("grüße ✓", "grüße ✓"));
    assert!(!str_eq("grüße", "gruße"));
}

#[test]
fn optional_strings_compare_by_content() {
    assert!(opt_str_is(&Some("error".to_string()), "error"));
    assert!(!opt_str_is(&Some("errors".to_string()), "error"));
    assert!(!opt_str_is(&None, "error"));
}

#[test]
fn unsigned_numerals() {
    assert_eq!(u64_to_decimal(0), "0");
    assert_eq!(u64_to_decimal(7), "7");
    assert_eq!(u64_to_decimal(10), "10");
    assert_eq!(u64_to_decimal(50), "50");
    assert_eq!(u64_to_decimal(1234567890), "1234567890");
    assert_eq!(u64_to_decimal(u64::MAX), "18446744073709551615");
}

#[test]
fn signed_numerals() {
    assert_eq!(i64_to_decimal(0), "0");
    assert_eq!(i64_to_decimal(42), "42");
    assert_eq!(i64_to_decimal(-1), "-1");
    assert_eq!(i64_to_decimal(-305), "-305");
    assert_eq!(i64_to_decimal(i64::MAX), "9223372036854775807");
    assert_eq!(i64_to_decimal(i64::MIN), "-9223372036854775808");
}

#[test]
fn numerals_are_appended() {
    let mut out = "id=".to_string();
    append_decimal(&mut out, 404);
    assert_eq!(out, "id=404");
}

#[test]
fn trailing_separators_are_trimmed() {
    assert_eq!(trim_end_char("http://host/", '/'), "http://host");
    assert_eq!(trim_end_char("http://host///", '/'), "http://host");
    assert_eq!(trim_end_char("http://host", '/'), "http://host");
    assert_eq!(trim_end_char("a/b", '/'), "a/b");
    assert_eq!(trim_end_char("///", '/'), "");
    assert_eq!(trim_end_char("", '/'), "");
    assert_eq!(trim_end_char("straße/", '/'), "straße");
}

#[test]
fn leading_separators_are_trimmed() {
    assert_eq!(trim_start_char("/targets", '/'), "targets");
    assert_eq!(trim_start_char("//targets/x/", '/'), "targets/x/");
    assert_eq!(trim_start_char("targets", '/'), "targets");
    assert_eq!(trim_start_char("///", '/'), "");
    assert_eq!(trim_start_char("", '/'), "");
    assert_eq!(trim_start_char("/ü/", '/'), "ü/");
}
