use ssh_proxy_gtk::text::{first_line, parse_u16, replace_all, starts_with, u16_to_decimal};

#[test]
fn parse_u16_reads_plain_numbers() {
    assert_eq!(parse_u16("22"), Some(22));
    assert_eq!(parse_u16("1088"), Some(1088));
    assert_eq!(parse_u16("0"), Some(0));
    assert_eq!(parse_u16("65535"), Some(65535));
    assert_eq!(parse_u16("0080"), Some(80));
    assert_eq!(parse_u16("+443"), Some(443));
}

#[test]
fn parse_u16_rejects_other_texts() {
    assert_eq!(parse_u16(""), None);
    assert_eq!(parse_u16("+"), None);
    assert_eq!(parse_u16("-1"), None);
    assert_eq!(parse_u16("-0"), None);
    assert_eq!(parse_u16("65536"), None);
    assert_eq!(parse_u16("99999999999999"), None);
    assert_eq!(parse_u16("22a"), None);
    assert_eq!(parse_u16(" 22"), None);
    assert_eq!(parse_u16("2 2"), None);
    assert_eq!(parse_u16("++2"), None);
    assert_eq!(parse_u16("端口"), None);
    assert_eq!(parse_u16("１"), None);
}

#[test]
fn parse_u16_agrees_with_std() {
    let samples = [
        "", "+", "-", "0", "00000", "1", "+1", "-1", "12a", "65535", "65536", "070000", "+65535",
        "١٢", "9", "10", "655350", "  ", "1\n", "4294967296",
    ];
    for s in samples.iter() {
        assert_eq!(parse_u16(s), s.parse::<u16>().ok(), "text {:?}", s);
    }
}

#[test]
fn decimal_matches_to_string() {
    for n in 0..=u16::MAX {
        assert_eq!(u16_to_decimal(n), n.to_string());
    }
}

#[test]
fn decimal_then_parse_gives_number_back() {
    for n in [0u16, 7, 10, 22, 1088, 9999, 10000, 65535] {
        assert_eq!(parse_u16(&u16_to_decimal(n)), Some(n));
    }
}

#[test]
fn replace_all_replaces_every_occurrence() {
    assert_eq!(replace_all("a{}b{}", "{}", "x"), "axbx");
    assert_eq!(replace_all("{}:{}", "{}", "host"), "host:host");
    assert_eq!(replace_all("no placeholder", "{}", "x"), "no placeholder");
    assert_eq!(replace_all("", "{}", "x"), "");
    assert_eq!(replace_all("aaa", "aa", "b"), "ba");
    assert_eq!(replace_all("{{}}", "{}", ""), "{}");
    assert_eq!(replace_all("连接失败：{}", "{}", "错误"), "连接失败：错误");
}

#[test]
fn replace_all_agrees_with_std() {
    let cases = [
        ("x{}y{}z{}", "{}", "12"),
        ("{}{}{}", "{}", "{}"),
        ("abcabc", "bc", "-"),
        ("ababab", "aba", "X"),
        ("端口{}端口", "口", "门"),
    ];
    for (s, from, to) in cases.iter() {
        assert_eq!(replace_all(s, from, to), s.replace(from, to));
    }
}

#[test]
fn starts_with_checks_prefixes() {
    assert!(starts_with("Server connected", "Server"));
    assert!(starts_with("abc", ""));
    assert!(starts_with("abc", "abc"));
    assert!(!starts_with("ab", "abc"));
    assert!(!starts_with("Connection failed", "Server"));
}

#[test]
fn first_line_stops_at_line_break() {
    assert_eq!(first_line("first\nsecond"), "first");
    assert_eq!(first_line("only"), "only");
    assert_eq!(first_line(""), "");
    assert_eq!(first_line("\nafter"), "");
    assert_eq!(first_line("服务器连接成功\n服务器"), "服务器连接成功");
}
