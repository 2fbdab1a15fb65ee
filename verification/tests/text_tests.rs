use upgrade_sentinel::text::{
    chars_of, concat_text, join_texts, lowercase_text, normalize, surround, text_contains,
    text_equals, to_owned_text, trim_text,
};

#[test]
fn trim_removes_unicode_whitespace_at_both_ends() {
    assert_eq!(trim_text("  a b \t\n"), "a b");
    assert_eq!(trim_text("\u{3000}x\u{00A0}"), "x");
    assert_eq!(trim_text("   "), "");
    assert_eq!(trim_text(""), "");
    assert_eq!(trim_text("abc"), "abc");
}

#[test]
fn lowercase_follows_std() {
    assert_eq!(lowercase_text("UpgradeTo"), "upgradeto");
    assert_eq!(lowercase_text("ÄÖ"), "äö");
    assert_eq!(lowercase_text("ΟΔΟΣ"), "οδος");
}

#[test]
fn normalize_trims_then_lowercases() {
    assert_eq!(normalize("  InitIALize\n"), "initialize");
}

#[test]
fn contains_finds_substrings() {
    assert!(text_contains("onlyowner", "onlyowner"));
    assert!(text_contains("xonlyownerx", "owner"));
    assert!(text_contains("abc", ""));
    assert!(text_contains("", ""));
    assert!(!text_contains("auth", "author"));
    assert!(!text_contains("onlyownr", "onlyowner"));
    assert!(text_contains("aab", "ab"));
}

#[test]
fn equality_and_building() {
    assert!(text_equals("init", "init"));
    assert!(!text_equals("init", "Init"));
    assert_eq!(to_owned_text("x"), "x");
    assert_eq!(concat_text("a", "bc"), "abc");
    assert_eq!(surround("Contract '", "V", "'"), "Contract 'V'");
    assert_eq!(chars_of("héllo"), vec!['h', 'é', 'l', 'l', 'o']);
}

#[test]
fn join_puts_separator_between() {
    let items = vec!["a".to_string(), "b".to_string(), "c".to_string()];
    assert_eq!(join_texts(&items, ", "), "a, b, c");
    assert_eq!(join_texts(&vec!["solo".to_string()], ", "), "solo");
    assert_eq!(join_texts(&vec![], ", "), "");
}

#[test]
fn ascii_facts_of_the_std_calls() {
    assert_eq!(lowercase_text("AZaz09_ !"), "azaz09_ !");
    assert_eq!(trim_text("\x0B\x0Cx\r"), "x");
    assert_eq!(trim_text("\x1Fx"), "\x1Fx");
}
