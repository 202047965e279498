use biliticket::mask::mask_id;
use biliticket::text::{contains_str, filter_contact, fmt_u64};

#[test]
fn fmt_renders_decimal() {
    assert_eq!(fmt_u64(0), "0");
    assert_eq!(fmt_u64(7), "7");
    assert_eq!(fmt_u64(405), "405");
    assert_eq!(fmt_u64(1000), "1000");
    assert_eq!(fmt_u64(u64::MAX), "18446744073709551615");
}

#[test]
fn short_ids_stay_visible() {
    assert_eq!(mask_id(""), "");
    assert_eq!(mask_id("123456"), "123456");
}

#[test]
fn middle_of_long_id_is_masked() {
    assert_eq!(mask_id("1234567"), "123*567");
    assert_eq!(mask_id("123456789"), "123***789");
}

#[test]
fn mask_run_caps_at_six() {
    assert_eq!(mask_id("110101199001011234"), "110******234");
}

#[test]
fn substring_search() {
    assert!(contains_str("https://x", "http"));
    assert!(contains_str("http", "http"));
    assert!(!contains_str("htt", "http"));
    assert!(!contains_str("example.org", "http"));
    assert!(contains_str("xxhttpyy", "http"));
    assert!(contains_str("anything", ""));
}

#[test]
fn contact_filter_keeps_only_allowed_characters() {
    let input: Vec<char> = "user name@example.org! 电话-13_800".chars().collect();
    let out: String = filter_contact(&input).into_iter().collect();
    assert_eq!(out, "username@example.org-13_800");
}
