use dash_shielded::alias_map::AliasMap;
use dash_shielded::text::{
    before_last, decimal_text, joined, parse_u64, same_text, starts_with, trim, trim_surrounding,
    trim_trailing,
};

#[test]
fn texts_are_compared_by_their_characters() {
    assert!(same_text("testnet", "testnet"));
    assert!(same_text("", ""));
    assert!(!same_text("testnet", "Testnet"));
    assert!(!same_text("testnet", "testnet "));
    assert_eq!(joined("ab", "c"), "abc");
    assert!(starts_with("ERROR: timeout", "ERROR"));
    assert!(starts_with("ERROR", "ERROR"));
    assert!(!starts_with("ERRO", "ERROR"));
    assert!(!starts_with("SYNCED", "ERROR"));
}

#[test]
fn decimal_texts_have_no_leading_zeros() {
    assert_eq!(decimal_text(0), "0");
    assert_eq!(decimal_text(9), "9");
    assert_eq!(decimal_text(10), "10");
    assert_eq!(decimal_text(1_000_305), "1000305");
    assert_eq!(decimal_text(u64::MAX as u128), "18446744073709551615");
}

#[test]
fn numbers_are_read_as_the_standard_parser_reads_them() {
    let texts = [
        "",
        "+",
        "-",
        "0",
        "007",
        "+5",
        "++5",
        "-0",
        "-5",
        "12a",
        " 12",
        "1 2",
        "1.0",
        "0x10",
        "18446744073709551615",
        "18446744073709551616",
        "99999999999999999999999",
        "+18446744073709551615",
        "\u{0661}",
        "+\u{0661}",
        "5\u{00e9}",
    ];
    for text in texts {
        assert_eq!(parse_u64(text), text.parse::<u64>().ok(), "{}", text);
    }
}

#[test]
fn written_numbers_read_back() {
    for n in [0u64, 1, 9, 10, 99, 100, 12345678901234567890, u64::MAX] {
        assert_eq!(decimal_text(n as u128), n.to_string());
        assert_eq!(parse_u64(&decimal_text(n as u128)), Some(n));
    }
}

#[test]
fn ends_are_trimmed() {
    assert_eq!(trim_trailing("https://host//", '/'), "https://host");
    assert_eq!(trim_trailing("///", '/'), "");
    assert_eq!(trim_trailing("/a", '/'), "/a");
    assert_eq!(trim_surrounding("\0\0hi\0there\0", '\0'), "hi\0there");
    assert_eq!(trim_surrounding("\0\0", '\0'), "");
    assert_eq!(trim_surrounding("\u{e9}\0", '\0'), "\u{e9}");
}

#[test]
fn white_space_is_trimmed_as_the_standard_trims_it() {
    let spaces: String = (0..=0x3100u32)
        .filter_map(char::from_u32)
        .filter(|c| c.is_whitespace())
        .collect();
    for c in (0..=0x3100u32).filter_map(char::from_u32) {
        let text = format!("{}a {}b{}", c, c, c);
        assert_eq!(trim(&text), text.trim());
    }
    let text = format!("{}x y{}", spaces, spaces);
    assert_eq!(trim(&text), "x y");
    assert_eq!(trim(&spaces), "");
    assert_eq!(trim(""), "");
    assert_eq!(trim("\u{200b}\u{feff}"), "\u{200b}\u{feff}");
}

#[test]
fn text_is_split_at_the_last_occurrence() {
    assert_eq!(before_last("1.2.3.4:9999", ':'), Some("1.2.3.4"));
    assert_eq!(before_last("[::1]:9999", ':'), Some("[::1]"));
    assert_eq!(before_last(":9999", ':'), Some(""));
    assert_eq!(before_last("1.2.3.4", ':'), None);
    assert_eq!(before_last("", ':'), None);
}

#[test]
fn alias_map_keeps_one_value_for_each_key() {
    let mut map: AliasMap<u64> = AliasMap::new();
    assert_eq!(map.len(), 0);
    assert_eq!(map.get("a"), None);
    map.insert("a".to_string(), 1);
    map.insert("b".to_string(), 2);
    map.insert("a".to_string(), 3);
    assert_eq!(map.len(), 2);
    assert_eq!(map.get("a"), Some(&3));
    assert_eq!(map.get("b"), Some(&2));
    assert_eq!(map.remove("a"), Some(3));
    assert_eq!(map.remove("a"), None);
    assert_eq!(map.len(), 1);
    assert_eq!(map.get("b"), Some(&2));
}
