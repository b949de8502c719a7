use aft::config::{Host, Platform};
use aft::config_resolve::{resolve_config, ConfigTier};
use aft::jsonc::strip_jsonc;
use aft::text::{count_bytes, decimal_text, ends_with, nth_word, parse_number, text_before, trim};
use aft::text_map::{TextMap, TextSet};

const HOST: Host = Host { platform: Platform::Unix, home: None };

#[test]
fn comments_and_trailing_commas_are_stripped_outside_strings() {
    let stripped = strip_jsonc("{\"a\": \"// no, \", /* x */ \"b\": [1,], // y\n}");
    let parsed = aft::json::parse_document(&stripped).expect("parses");
    assert_eq!(parsed, aft::json::parse_document("{\"a\": \"// no, \", \"b\": [1]}").unwrap());
    assert_eq!(strip_jsonc("\"a\\\" // b\""), "\"a\\\" // b\"");
}

#[test]
fn words_and_numbers_are_read() {
    assert_eq!(nth_word("a  b\tc", 1).as_deref(), Some("b"));
    assert_eq!(nth_word("a", 1), None);
    assert_eq!(parse_number("18446744073709551615"), Some(u64::MAX));
    assert_eq!(parse_number("18446744073709551616"), None);
    assert_eq!(parse_number("+7"), Some(7));
    assert_eq!(parse_number(""), None);
    assert_eq!(decimal_text(0), "0");
    assert_eq!(decimal_text(u64::MAX), u64::MAX.to_string());
}

#[test]
fn texts_are_trimmed_counted_and_compared() {
    assert_eq!(trim(" \t a b \n"), "a b");
    assert_eq!(count_bytes("aé€😀"), 1 + 2 + 3 + 4);
    assert!(ends_with("no writer", "writer"));
    assert!(!ends_with("writer", "no writer"));
    assert!(text_before("a", "b"));
    assert!(text_before("a", "aa"));
    assert!(!text_before("b", "a"));
}

#[test]
fn maps_keep_their_keys_in_order() {
    let mut map = TextMap::new();
    map.put("b".to_string(), 1u64);
    map.put("a".to_string(), 2);
    map.put("b".to_string(), 3);
    assert_eq!(map.len(), 2);
    assert_eq!(map.get("b"), Some(&3));
    assert_eq!(map.entries[0].0, "a");
    map.remove("a");
    assert_eq!(map.get("a"), None);
    let mut set = TextSet::new();
    set.insert("x".to_string());
    set.insert("x".to_string());
    assert_eq!(set.copy().items.len(), 1);
}

#[test]
fn warnings_quote_what_they_name() {
    let tier = ConfigTier {
        tier: "user".to_string(),
        source: "/u/aft.jsonc".to_string(),
        doc: r#"{"edit_mode": "fu\"ture"}"#.to_string(),
    };
    let result = resolve_config(&[tier], &HOST);
    assert_eq!(result.warnings.len(), 1);
    assert_eq!(result.warnings[0].value, "fu\"ture");
    assert!(result.warnings[0].message.contains(r#""fu\"ture""#));
}
