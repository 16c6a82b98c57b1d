use dota2_tui::order::{chars_le, sort_texts};
use dota2_tui::recency::Recency;
use dota2_tui::text::{
    chars_of, concat3, decimal_string, is_space_char, parse_unsigned_chars,
    signed_decimal_string, split, starts_with, str_eq, to_lower, trim,
};
use dota2_tui::text_set::TextSet;

fn chars(s: &str) -> Vec<char> {
    s.chars().collect()
}

fn text(v: &[char]) -> String {
    v.iter().collect()
}

#[test]
fn characters_round_trip() {
    assert_eq!(chars_of("héllo 世界"), chars("héllo 世界"));
    assert_eq!(chars_of(""), Vec::<char>::new());
    assert_eq!(dota2_tui::text::concat("ab", "cd"), "abcd");
    assert_eq!(concat3("a", "", "c"), "ac");
    assert!(str_eq("世界", "世界"));
    assert!(!str_eq("a", "b"));
    assert!(!str_eq("a", "ab"));
    assert!(str_eq("", ""));
}

#[test]
fn trimming_follows_unicode_white_space() {
    for c in ['\t', '\n', '\u{b}', '\u{c}', '\r', ' ', '\u{85}', '\u{a0}', '\u{1680}', '\u{2000}', '\u{200a}', '\u{2028}', '\u{2029}', '\u{202f}', '\u{205f}', '\u{3000}'] {
        assert!(is_space_char(c), "{:?}", c);
        assert!(c.is_whitespace());
    }
    for c in ['a', '\u{200b}', '\u{feff}', '\u{180e}', '\u{1c}', '_', '\0'] {
        assert_eq!(is_space_char(c), c.is_whitespace(), "{:?}", c);
    }
    for s in ["", "  ", " a b ", "\t\u{3000}x\u{a0}\n", "x", " x", "x ", "\u{200b} x"] {
        assert_eq!(text(&trim(&chars(s))), s.trim(), "{s:?}");
    }
}

#[test]
fn lower_case_is_ascii_only() {
    for s in ["ABC xyz", "ÀÉ", "Zh-CN", "", "@[`{AZaz"] {
        assert_eq!(text(&to_lower(&chars(s))), s.to_ascii_lowercase());
    }
}

#[test]
fn prefixes() {
    assert!(starts_with(&chars("http://x"), &chars("http")));
    assert!(starts_with(&chars("http"), &chars("http")));
    assert!(starts_with(&chars("x"), &chars("")));
    assert!(!starts_with(&chars("htt"), &chars("http")));
    assert!(!starts_with(&chars("xhttp"), &chars("http")));
}

#[test]
fn decimal_numerals() {
    assert_eq!(decimal_string(0), "0");
    assert_eq!(decimal_string(9), "9");
    assert_eq!(decimal_string(10), "10");
    assert_eq!(decimal_string(135664392), "135664392");
    assert_eq!(decimal_string(u64::MAX), u64::MAX.to_string());
    assert_eq!(signed_decimal_string(-1), "-1");
    assert_eq!(signed_decimal_string(0), "0");
    assert_eq!(signed_decimal_string(i64::MIN), i64::MIN.to_string());
    assert_eq!(signed_decimal_string(i64::MAX), i64::MAX.to_string());
}

#[test]
fn unsigned_numerals_parse_like_the_standard_library() {
    for s in ["0", "7", "+7", "007", "18446744073709551615", "18446744073709551616", "", "+", "-", "-0", "1_000", " 1", "1 ", "++1", "1+", "٣", "99999999999999999999999999"] {
        assert_eq!(parse_unsigned_chars(&chars(s), u64::MAX), s.parse::<u64>().ok(), "{s:?}");
    }
    for s in ["4294967295", "4294967296", "+0", "00000000000000000000001"] {
        assert_eq!(
            parse_unsigned_chars(&chars(s), u32::MAX as u64),
            s.parse::<u32>().ok().map(u64::from),
            "{s:?}"
        );
    }
    assert_eq!(parse_unsigned_chars(&chars("5"), 4), None);
    assert_eq!(parse_unsigned_chars(&chars("4"), 4), Some(4));
    assert_eq!(parse_unsigned_chars(&chars("0"), 0), Some(0));
}

#[test]
fn splitting_keeps_empty_pieces() {
    for s in ["", "a", "a+b", "+", "a++b", "+a", "a+", "Ctrl+Shift+x"] {
        let expected: Vec<String> = s.split('+').map(str::to_string).collect();
        let got: Vec<String> = split(&chars(s), '+').iter().map(|p| text(p)).collect();
        assert_eq!(got, expected, "{s:?}");
    }
}

#[test]
fn texts_are_ordered_like_strings() {
    let samples = ["", "a", "A", "ab", "b", "a=1", "a=10", "a=2", "é", "z", "世", "aa", "a\u{10ffff}"];
    for a in samples {
        for b in samples {
            assert_eq!(chars_le(&chars(a), &chars(b)), a <= b, "{a:?} {b:?}");
        }
    }
    let mut expected: Vec<String> = samples.iter().map(|s| s.to_string()).collect();
    expected.sort();
    let mut shuffled: Vec<Vec<char>> = samples.iter().rev().map(|s| chars(s)).collect();
    shuffled.push(chars("a"));
    expected.push("a".to_string());
    expected.sort();
    let sorted: Vec<String> = sort_texts(shuffled).iter().map(|p| text(p)).collect();
    assert_eq!(sorted, expected);
    assert!(sort_texts(Vec::new()).is_empty());
}

#[test]
fn recency_store_orders_by_write() {
    let mut store: Recency<u32> = Recency::new(3);
    assert!(store.is_empty());
    assert_eq!(store.capacity(), 3);
    store.put("a".to_string(), 1);
    store.put("b".to_string(), 2);
    store.put("c".to_string(), 3);
    assert_eq!(store.get("a"), Some(&1));
    store.put("a".to_string(), 10);
    assert_eq!(store.len(), 3);
    let keys: Vec<Option<&str>> = (0..4).map(|i| store.key_at(i).map(String::as_str)).collect();
    assert_eq!(keys, vec![Some("a"), Some("c"), Some("b"), None]);
    store.put("d".to_string(), 4);
    assert_eq!(store.len(), 3);
    assert!(!store.contains_key("b"));
    assert_eq!(store.get("a"), Some(&10));
    assert_eq!(store.get("b"), None);
    assert_eq!(store.key_at(0).map(String::as_str), Some("d"));
}

#[test]
fn text_set_behaves_like_a_set() {
    let mut set = TextSet::new();
    assert!(set.is_empty());
    assert!(set.insert("a".to_string()));
    assert!(!set.insert("a".to_string()));
    assert!(set.insert("b".to_string()));
    assert!(set.contains("a"));
    assert!(!set.contains("c"));
    assert!(set.remove("a"));
    assert!(!set.remove("a"));
    assert!(!set.contains("a"));
    assert!(set.contains("b"));
    assert!(!set.is_empty());
    set.clear();
    assert!(set.is_empty());
    assert!(!set.contains("b"));
}
