use wifi_connect::profile::profile_template_text;
use wifi_connect::profile::render_profile;
use wifi_connect::text::replace_str;
use wifi_connect::text::str_contains;

#[test]
fn contains_plain_cases() {
    assert!(str_contains("hello world", "world"));
    assert!(str_contains("hello world", "hello"));
    assert!(str_contains("hello world", "o w"));
    assert!(!str_contains("hello world", "worlds"));
    assert!(!str_contains("short", "a longer needle"));
}

#[test]
fn contains_empty_needle_and_haystack() {
    assert!(str_contains("anything", ""));
    assert!(str_contains("", ""));
    assert!(!str_contains("", "x"));
}

#[test]
fn replace_single_and_repeated_occurrences() {
    assert_eq!(replace_str("a {X} b", "{X}", "v"), "a v b");
    assert_eq!(replace_str("{X}{X}", "{X}", "v"), "vv");
    assert_eq!(replace_str("no token here", "{X}", "v"), "no token here");
    assert_eq!(replace_str("edge {X}", "{X}", ""), "edge ");
}

#[test]
fn replace_matches_std_replace() {
    let cases = [
        ("aaa", "aa", "b"),
        ("abcabc", "abc", ""),
        ("{SSID} and {SSID}", "{SSID}", "Home-5G"),
        ("xyx", "y", "yy"),
        ("", "p", "r"),
    ];
    for (s, pat, rep) in cases {
        assert_eq!(replace_str(s, pat, rep), s.replace(pat, rep));
    }
}

#[test]
fn replace_empty_pattern_leaves_text_unchanged() {
    assert_eq!(replace_str("abc", "", "x"), "abc");
}

#[test]
fn renders_home_5g_profile() {
    let rendered = render_profile("Home-5G", "s3cr3t!");
    assert!(!rendered.contains("{SSID}"));
    assert!(!rendered.contains("{password}"));
    assert_eq!(rendered.matches("Home-5G").count(), 1);
    assert_eq!(rendered.matches("s3cr3t!").count(), 1);
    let expected = profile_template_text()
        .replace("{SSID}", "Home-5G")
        .replace("{password}", "s3cr3t!");
    assert_eq!(rendered, expected);
}

#[test]
fn template_holds_each_token_once() {
    let template = profile_template_text();
    assert_eq!(template.matches("{SSID}").count(), 1);
    assert_eq!(template.matches("{password}").count(), 1);
}

#[test]
fn rendering_substitutes_ssid_before_password() {
    // The name is substituted first, so a name that itself holds the
    // passphrase token is rewritten again by the second pass.
    let rendered = render_profile("net{password}net", "secret");
    assert!(!rendered.contains("{password}"));
    assert!(rendered.contains("<name>netsecretnet</name>"));
}
