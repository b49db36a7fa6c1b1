use doxle_shared::cloudfront::format_cookie_headers;
use doxle_shared::invites::default_expires_days;
use doxle_shared::s3::_parse_bucket_and_key;
use doxle_shared::text::{
    chars_of, find_char, find_text, i64_to_decimal, same_text, starts_with, text_after,
    text_before,
};

fn pair(a: &str, b: &str) -> (String, String) {
    (a.to_string(), b.to_string())
}

#[test]
fn characters_come_in_order() {
    assert_eq!(chars_of("a\u{e9}z"), vec!['a', '\u{e9}', 'z']);
    assert_eq!(chars_of(""), Vec::<char>::new());
}

#[test]
fn prefix_and_equality() {
    assert!(starts_with("PROJECT#p1", "PROJECT#"));
    assert!(starts_with("PROJECT#", "PROJECT#"));
    assert!(starts_with("anything", ""));
    assert!(!starts_with("PROJECT", "PROJECT#"));
    assert!(!starts_with("xPROJECT#", "PROJECT#"));
    assert!(!starts_with("", "a"));
    assert!(same_text("abc", "abc"));
    assert!(same_text("", ""));
    assert!(!same_text("abc", "abd"));
    assert!(!same_text("abc", "ab"));
}

#[test]
fn finding_and_cutting() {
    assert_eq!(find_char("a#b#c", '#'), Some(1));
    assert_eq!(find_char("#", '#'), Some(0));
    assert_eq!(find_char("abc", '#'), None);
    assert_eq!(find_char("", '#'), None);
    assert_eq!(find_text("bucket.s3.amazonaws.com", ".s3"), Some(6));
    assert_eq!(find_text("a.s.s3.s3", ".s3"), Some(3));
    assert_eq!(find_text("abc", "abcd"), None);
    assert_eq!(find_text("abc", ""), Some(0));
    assert_eq!(find_text("", ""), None);
    assert_eq!(text_after("h\u{e9}llo", 2), "llo");
    assert_eq!(text_after("abc", 3), "");
    assert_eq!(text_before("h\u{e9}llo", 2), "h\u{e9}");
    assert_eq!(text_before("abc", 0), "");
}

#[test]
fn integers_in_decimal() {
    for n in [0i64, 1, 9, 10, 11, 99, 100, 101, 3600, 86400, -1, -10, -999, 1234567890123] {
        assert_eq!(i64_to_decimal(n), n.to_string());
    }
    assert_eq!(i64_to_decimal(i64::MAX), "9223372036854775807");
    assert_eq!(i64_to_decimal(i64::MIN), "-9223372036854775808");
    assert_eq!(i64_to_decimal(i64::MIN + 1), "-9223372036854775807");
}

#[test]
fn cookie_headers_with_domain_and_secure() {
    let headers = format_cookie_headers(
        vec![pair("CloudFront-Policy", "abc"), pair("CloudFront-Signature", "s1g")],
        Some("example.com"),
        true,
        3600,
    );
    assert_eq!(
        headers,
        [
            "CloudFront-Policy=abc; Domain=example.com; Path=/; Max-Age=3600; HttpOnly; Secure; SameSite=None",
            "CloudFront-Signature=s1g; Domain=example.com; Path=/; Max-Age=3600; HttpOnly; Secure; SameSite=None",
        ]
    );
}

#[test]
fn cookie_headers_without_domain() {
    let expected = ["k=v; Path=/; Max-Age=60; HttpOnly; SameSite=None"];
    assert_eq!(format_cookie_headers(vec![pair("k", "v")], None, false, 60), expected);
    assert_eq!(format_cookie_headers(vec![pair("k", "v")], Some(""), false, 60), expected);
    assert_eq!(
        format_cookie_headers(vec![pair("k", "v")], None, true, -5),
        ["k=v; Path=/; Max-Age=-5; HttpOnly; Secure; SameSite=None"]
    );
    assert_eq!(format_cookie_headers(Vec::new(), Some("d"), true, 1), Vec::<String>::new());
}

#[test]
fn bucket_and_key_of_an_address() {
    assert_eq!(
        _parse_bucket_and_key("https://my-bucket.s3.amazonaws.com/a/b/c.png"),
        Some(pair("my-bucket", "a/b/c.png"))
    );
    assert_eq!(
        _parse_bucket_and_key("http://my-bucket.s3.eu-west-1.amazonaws.com/k"),
        Some(pair("my-bucket", "k"))
    );
    assert_eq!(
        _parse_bucket_and_key("https://s3.eu-west-1.amazonaws.com/my-bucket/a/b.png"),
        Some(pair("my-bucket", "a/b.png"))
    );
    assert_eq!(_parse_bucket_and_key("s3.amazonaws.com/bucket/"), Some(pair("bucket", "")));
    assert_eq!(_parse_bucket_and_key("https://s3.amazonaws.com/bucket-only"), None);
    assert_eq!(_parse_bucket_and_key("https://no-slash.example.com"), None);
    assert_eq!(_parse_bucket_and_key(""), None);
    assert_eq!(_parse_bucket_and_key("host.example.com/key"), Some(pair("host.example.com", "key")));
    assert_eq!(_parse_bucket_and_key("ftp://h/k"), Some(pair("ftp:", "/h/k")));
    assert_eq!(_parse_bucket_and_key(".s3/k"), Some(pair("", "k")));
}

#[test]
fn invitations_last_a_week_by_default() {
    assert_eq!(default_expires_days(), 7);
}
