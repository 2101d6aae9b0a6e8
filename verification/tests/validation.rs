use dealchain::validation::{has_prefix, is_permitted};
use dealchain::{is_valid_uri, is_valid_utf8};

#[test]
fn clean_text_allows_newline_tab_and_carriage_return() {
    assert!(is_valid_utf8("line one\nline two\r\n\tindented"));
    assert!(is_valid_utf8(""));
    assert!(is_valid_utf8("caf\u{e9} \u{1F600}"));
}

#[test]
fn clean_text_rejects_other_control_codes() {
    assert!(!is_valid_utf8("bell\u{7}"));
    assert!(!is_valid_utf8("\u{0}"));
    assert!(!is_valid_utf8("esc\u{1b}[0m"));
    assert!(!is_valid_utf8("del\u{7f}"));
    assert!(!is_valid_utf8("c1\u{85}"));
    assert!(!is_valid_utf8("c1\u{9f}"));
    assert!(is_valid_utf8("\u{a0}"));
    assert!(is_valid_utf8("~"));
    assert!(is_valid_utf8(" "));
}

#[test]
fn control_codes_agree_with_the_standard_classification() {
    let mut code: u32 = 0;
    while code <= 0x10FFFF {
        if let Some(c) = char::from_u32(code) {
            let allowed = !c.is_control() || c == '\n' || c == '\r' || c == '\t';
            let s = c.to_string();
            assert_eq!(is_valid_utf8(&s), allowed);
        }
        code += if code < 0x400 { 1 } else { 0x101 };
    }
}

#[test]
fn approved_schemes_are_accepted() {
    assert!(is_valid_uri("ipfs://QmHash"));
    assert!(is_valid_uri("https://example.com/meta.json"));
    assert!(is_valid_uri("ar://abc"));
    assert!(is_valid_uri("ipfs://"));
}

#[test]
fn other_schemes_are_rejected() {
    assert!(!is_valid_uri("http://example.com"));
    assert!(!is_valid_uri("ftp://example.com"));
    assert!(!is_valid_uri(""));
    assert!(!is_valid_uri("ipfs:/"));
    assert!(!is_valid_uri(" https://example.com"));
    assert!(!is_valid_uri("IPFS://upper"));
    assert!(!is_valid_uri("ar:/"));
}

#[test]
fn a_prefix_is_compared_character_by_character() {
    assert!(has_prefix("abc", ""));
    assert!(has_prefix("", ""));
    assert!(has_prefix("abc", "abc"));
    assert!(has_prefix("abc", "ab"));
    assert!(!has_prefix("ab", "abc"));
    assert!(!has_prefix("abc", "b"));
    assert!(!has_prefix("", "a"));
    assert!(has_prefix("\u{e9}t\u{e9}", "\u{e9}t"));
    assert!(!has_prefix("\u{e9}t\u{e9}", "et"));
}

#[test]
fn single_characters_are_classified() {
    assert!(is_permitted('a'));
    assert!(is_permitted('\n'));
    assert!(is_permitted('\r'));
    assert!(is_permitted('\t'));
    assert!(is_permitted('\u{20}'));
    assert!(is_permitted('\u{7e}'));
    assert!(is_permitted('\u{a0}'));
    assert!(is_permitted('\u{10FFFF}'));
    assert!(!is_permitted('\u{0}'));
    assert!(!is_permitted('\u{1f}'));
    assert!(!is_permitted('\u{7f}'));
    assert!(!is_permitted('\u{80}'));
    assert!(!is_permitted('\u{9f}'));
    assert!(!is_permitted('\u{b}'));
    assert!(!is_permitted('\u{c}'));
}
