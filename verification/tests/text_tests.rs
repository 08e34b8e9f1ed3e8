use msst_net_client_installer::text::{
    push_decimal, push_tenths, replace_str, str_eq, trim_start_matches_char, trim_str,
};

#[test]
fn string_equality() {
    assert!(str_eq("", ""));
    assert!(str_eq("abc", "abc"));
    assert!(!str_eq("abc", "abd"));
    assert!(!str_eq("ab", "abc"));
    assert!(str_eq("安装", "安装"));
}

#[test]
fn trimming() {
    assert_eq!(trim_str("  x y \n"), "x y");
    assert_eq!(trim_str("\u{2003}\u{85}z\u{202f}"), "z");
    assert_eq!(trim_str("   "), "");
    assert_eq!(trim_str(""), "");
    assert_eq!(trim_str("\u{200b}a"), "\u{200b}a");
    assert_eq!(trim_start_matches_char("..deb", '.'), "deb");
    assert_eq!(trim_start_matches_char("rpm", '.'), "rpm");
    assert_eq!(trim_start_matches_char("...", '.'), "");
}

#[test]
fn decimals() {
    let mut s = String::from("n=");
    push_decimal(&mut s, 0);
    assert_eq!(s, "n=0");
    let mut t = String::new();
    push_decimal(&mut t, 1234567890123456789012345678901234567);
    assert_eq!(t, "1234567890123456789012345678901234567");
    let mut u = String::new();
    push_tenths(&mut u, 5);
    assert_eq!(u, "0.5");
    let mut v = String::new();
    push_tenths(&mut v, 1230);
    assert_eq!(v, "123.0");
}

#[test]
fn replacement() {
    assert_eq!(replace_str("aaa", "aa", "b"), "ba");
    assert_eq!(replace_str("abcabc", "bc", ""), "aa");
    assert_eq!(replace_str("x", "xyz", "q"), "x");
    assert_eq!(replace_str("日本日本", "本", "-"), "日-日-");
}
