use yard_plugin::json::{Json, Number};
use yard_plugin::string_map::{sort_entries, StringMap};
use yard_plugin::text::{
    blank, chars_of, copy_texts, decimal_text, find_from, holds_text, join, lines, owned_texts,
    same_text, text_between, text_precedes, trim, white_space,
};

#[test]
fn white_space_is_that_of_unicode() {
    for code in 0..=0x10ffff_u32 {
        if let Some(c) = char::from_u32(code) {
            assert_eq!(white_space(c), c.is_whitespace(), "U+{code:04X}");
        }
    }
}

#[test]
fn trim_and_blank_agree_with_std() {
    for s in ["", " ", "a", "  a b\t", "\u{3000}x\u{a0}", "\n\r\n", "\u{200b}"] {
        assert_eq!(trim(s), s.trim());
        assert_eq!(blank(s), s.trim().is_empty());
    }
}

#[test]
fn lines_agree_with_std() {
    for s in ["", "\n", "a", "a\n", "a\nb", "a\r\nb\r", "\n\na", "a\r\r\n", "\r", "x\r\n\r\n"] {
        let expected: Vec<&str> = s.lines().collect();
        assert_eq!(lines(s), expected, "{s:?}");
    }
}

#[test]
fn decimal_text_is_in_base_ten() {
    for n in [0, 7, 10, 3306, 65535, u64::MAX] {
        assert_eq!(decimal_text(n), n.to_string());
    }
}

#[test]
fn text_order_is_that_of_std() {
    let texts = ["", "a", "aa", "b", "A", "é", "z", "\u{ffff}", "\u{10000}"];
    for a in texts {
        for b in texts {
            assert_eq!(text_precedes(a, b), a < b, "{a:?} {b:?}");
            assert_eq!(same_text(a, b), a == b, "{a:?} {b:?}");
        }
    }
}

#[test]
fn characters_are_found_and_cut_out() {
    let chars = chars_of("aé/b");
    assert_eq!(chars, vec!['a', 'é', '/', 'b']);
    assert_eq!(find_from(&chars, 0, '/'), 2);
    assert_eq!(find_from(&chars, 3, '/'), 4);
    assert_eq!(text_between(&chars, 1, 3), "é/");
}

#[test]
fn lists_of_texts_are_joined_and_copied() {
    let owned = owned_texts(&vec!["x", "y", ""]);
    assert_eq!(join(&owned, ", "), "x, y, ");
    assert_eq!(join(&vec![], ", "), "");
    assert_eq!(copy_texts(&owned), owned);
    assert!(holds_text(&vec!["x", "y"], "y"));
    assert!(!holds_text(&vec!["x", "y"], "xy"));
}

#[test]
fn string_map_keeps_one_value_per_key() {
    let mut map = StringMap::new();
    map.insert("b".to_string(), "1".to_string());
    map.insert("a".to_string(), "2".to_string());
    map.insert("b".to_string(), "3".to_string());

    assert_eq!(map.get_text("b"), Some("3"));
    assert_eq!(map.get_text("c"), None);
    assert_eq!(
        map.to_entries(),
        vec![("b".to_string(), "3".to_string()), ("a".to_string(), "2".to_string())]
    );
    let mut copied = map.copy();
    copied.put_text("c", "4");
    assert_eq!(copied.entries().len(), 3);
    assert_eq!(map.entries().len(), 2);
    assert_eq!(
        sort_entries(map.to_entries()),
        vec![("a".to_string(), "2".to_string()), ("b".to_string(), "3".to_string())]
    );
}

#[test]
fn numbers_are_written_as_serde_json_writes_them() {
    for n in [0_u64, 9, 10, 42, i64::MAX as u64, u64::MAX] {
        assert_eq!(Number::PosInt(n).to_text(), serde_json::Number::from(n).to_string());
    }
    for n in [-1_i64, -10, i64::MIN] {
        assert_eq!(Number::NegInt(n).to_text(), serde_json::Number::from(n).to_string());
    }
    assert_eq!(Number::Fraction("1.5".to_string()).to_text(), "1.5");
}

#[test]
fn numbers_are_integers_where_they_fit() {
    assert_eq!(Number::PosInt(i64::MAX as u64).as_i64(), Some(i64::MAX));
    assert_eq!(Number::PosInt(i64::MAX as u64 + 1).as_i64(), None);
    assert_eq!(Number::NegInt(-3).as_i64(), Some(-3));
    assert_eq!(Number::Fraction("1.0".to_string()).as_i64(), None);
}

#[test]
fn json_members_are_read_by_type() {
    let mut members = StringMap::new();
    members.insert("s".to_string(), Json::Str("x".to_string()));
    members.insert("n".to_string(), Json::Number(Number::NegInt(-7)));
    members.insert("a".to_string(), Json::Array(vec![Json::Null]));
    let value = Json::Object(members);

    assert_eq!(value.get_str("s"), Some("x"));
    assert_eq!(value.get_str("n"), None);
    assert_eq!(value.get_i64("n"), Some(-7));
    assert_eq!(value.get_i64("s"), None);
    assert!(value.get("a").unwrap().is_array());
    assert!(!value.get("s").unwrap().is_object());
    assert!(value.is_object());
    assert!(value.get("missing").is_none());
    assert!(Json::Bool(true).get("s").is_none());
}

#[test]
fn cloned_values_hold_the_same() {
    let mut members = StringMap::new();
    members.insert("s".to_string(), Json::Str("x".to_string()));
    members.insert("b".to_string(), Json::Array(vec![Json::Bool(true), Json::Null]));
    members.insert("n".to_string(), Json::Number(Number::Fraction("0.5".to_string())));
    members.insert("m".to_string(), Json::Number(Number::NegInt(-1)));
    let value = Json::Object(members);
    assert_eq!(format!("{:?}", value.clone()), format!("{value:?}"));

    let mut texts = StringMap::new();
    texts.insert("b".to_string(), "1".to_string());
    texts.insert("a".to_string(), "2".to_string());
    assert_eq!(texts.clone().to_entries(), texts.to_entries());
}
