use covid_unified_gateway::dict::Dict;
use covid_unified_gateway::text::is_blank;

#[test]
fn dict_starts_empty() {
    let d: Dict<u32> = Dict::new();
    assert_eq!(d.len(), 0);
    assert!(d.get("a").is_none());
    assert!(d.entries().is_empty());
}

#[test]
fn dict_insert_then_get() {
    let mut d = Dict::new();
    assert_eq!(d.insert("a".to_owned(), 1u32), None);
    assert_eq!(d.insert("b".to_owned(), 2), None);
    assert_eq!(d.len(), 2);
    assert_eq!(d.get("a"), Some(&1));
    assert_eq!(d.get("b"), Some(&2));
    assert_eq!(d.get("c"), None);
    assert_eq!(d.get(""), None);
}

#[test]
fn dict_insert_replaces_and_returns_previous() {
    let mut d = Dict::new();
    d.insert("a".to_owned(), 1u32);
    d.insert("b".to_owned(), 2);
    assert_eq!(d.insert("a".to_owned(), 3), Some(1));
    assert_eq!(d.len(), 2);
    assert_eq!(d.get("a"), Some(&3));
    assert_eq!(d.get("b"), Some(&2));
}

#[test]
fn dict_entries_keep_arrival_order_and_distinct_keys() {
    let mut d = Dict::new();
    d.insert("z".to_owned(), "26".to_owned());
    d.insert("a".to_owned(), "1".to_owned());
    d.insert("z".to_owned(), "0".to_owned());
    d.insert("".to_owned(), "none".to_owned());
    let keys: Vec<&str> = d.entries().iter().map(|e| e.key.as_str()).collect();
    assert_eq!(keys, vec!["z", "a", ""]);
    let entries = d.into_entries();
    assert_eq!(entries.len(), 3);
    assert_eq!(entries[0].value, "0");
    assert_eq!(entries[1].value, "1");
    assert_eq!(entries[2].value, "none");
}

#[test]
fn is_blank_on_empty_and_white_space() {
    assert!(is_blank(""));
    assert!(is_blank(" "));
    assert!(is_blank(" \t\n\r\u{b}\u{c}"));
    assert!(is_blank("\u{85}\u{a0}\u{1680}\u{2003}\u{2028}\u{2029}\u{202f}\u{205f}\u{3000}"));
}

#[test]
fn is_blank_rejects_any_visible_character() {
    assert!(!is_blank("a"));
    assert!(!is_blank("  a  "));
    assert!(!is_blank("\n."));
    assert!(!is_blank("\u{200b}"));
    assert!(!is_blank("สวัสดี"));
    assert!(!is_blank(" \u{0}"));
}

#[test]
fn is_blank_agrees_with_trim() {
    for s in ["", " ", "x", " x", "x ", "\t\t", "\u{a0}x\u{a0}", "\u{feff}", "\u{180e}"] {
        assert_eq!(is_blank(s), s.trim().len() == 0, "{:?}", s);
    }
}
