use osheems_common::json::{JsonNumber, JsonValue};
use osheems_common::registry::Registry;
use osheems_common::text::{
    concat2, concat3, ends_with, hex4_string, replace_char, slice_chars, split_char, split_file_name, starts_with,
    str_eq, trim_char, u64_to_decimal,
};

fn text(s: &str) -> JsonValue {
    JsonValue::Text(s.to_string())
}

fn object(entries: Vec<(&str, JsonValue)>) -> JsonValue {
    JsonValue::Object(entries.into_iter().map(|(k, v)| (k.to_string(), v)).collect())
}

fn keys(v: &JsonValue) -> Vec<String> {
    v.as_object().unwrap().iter().map(|(k, _)| k.clone()).collect()
}

#[test]
fn split_keeps_empty_parts() {
    assert_eq!(split_char("a/b//c", '/'), vec!["a", "b", "", "c"]);
    assert_eq!(split_char("", '/'), vec![""]);
    assert_eq!(split_char("/x/", '/'), vec!["", "x", ""]);
    assert_eq!(split_char("abc", '/'), vec!["abc"]);
}

#[test]
fn split_then_join_gives_the_text_back() {
    for s in ["osheems/core/dev/evt/p", "a//b", "/", "plain"] {
        assert_eq!(split_char(s, '/').join("/"), s);
    }
}

#[test]
fn prefixes_and_suffixes() {
    assert!(starts_with("docker0", "docker"));
    assert!(!starts_with("dock", "docker"));
    assert!(starts_with("x", ""));
    assert!(ends_with("main.js", ".js"));
    assert!(!ends_with("js", ".js"));
}

#[test]
fn replace_and_trim() {
    assert_eq!(replace_char("a:b:c", ':', '_'), "a_b_c");
    assert_eq!(replace_char("a\\b", '\\', '/'), "a/b");
    assert_eq!(trim_char("//a/b//", '/'), "a/b");
    assert_eq!(trim_char("///", '/'), "");
    assert_eq!(trim_char("abc", '/'), "abc");
}

#[test]
fn decimal_text() {
    assert_eq!(u64_to_decimal(0), "0");
    assert_eq!(u64_to_decimal(7), "7");
    assert_eq!(u64_to_decimal(1234), "1234");
    assert_eq!(u64_to_decimal(u64::MAX), "18446744073709551615");
}

#[test]
fn hexadecimal_text() {
    assert_eq!(hex4_string(0), "0000");
    assert_eq!(hex4_string(0x1a86), "1a86");
    assert_eq!(hex4_string(0xffff), "ffff");
    assert_eq!(hex4_string(0x00ab), "00ab");
}

#[test]
fn concatenations_and_slices() {
    assert_eq!(concat2("ab", "cd"), "abcd");
    assert_eq!(concat3("a", "/", "b"), "a/b");
    let cs: Vec<char> = "hello".chars().collect();
    assert_eq!(slice_chars(&cs, 1, 3), "el");
    assert_eq!(slice_chars(&cs, 2, 2), "");
    assert!(str_eq("x", "x"));
    assert!(!str_eq("x", "X"));
}

#[test]
fn file_names_split_at_the_last_dot() {
    assert_eq!(split_file_name("mqtt.json"), ("mqtt".to_string(), Some("json".to_string())));
    assert_eq!(split_file_name("a.tar.gz"), ("a.tar".to_string(), Some("gz".to_string())));
    assert_eq!(split_file_name("README"), ("README".to_string(), None));
    assert_eq!(split_file_name(".hidden"), (".hidden".to_string(), None));
    assert_eq!(split_file_name(".."), ("..".to_string(), None));
    assert_eq!(split_file_name("a."), ("a".to_string(), Some("".to_string())));
}

#[test]
fn json_lookup() {
    let v = object(vec![("a", text("x")), ("b", JsonValue::Number(JsonNumber::PosInt(3)))]);
    assert_eq!(v.get("a").and_then(|x| x.as_str()), Some("x"));
    assert_eq!(v.get("b").and_then(|x| x.as_u64()), Some(3));
    assert!(v.get("c").is_none());
    assert!(matches!(v.index("c"), JsonValue::Null));
    assert_eq!(v.index("a").as_str(), Some("x"));
    assert!(text("x").get("a").is_none());
    assert!(v.is_object());
    assert!(!text("x").is_object());
}

#[test]
fn json_first_member_wins_on_lookup() {
    let v = object(vec![("a", text("first")), ("a", text("second"))]);
    assert_eq!(v.get("a").and_then(|x| x.as_str()), Some("first"));
}

#[test]
fn json_insert_replaces_or_appends() {
    let v = object(vec![("a", text("x")), ("b", text("y"))]);
    let v = v.insert("a".to_string(), text("z"));
    assert_eq!(keys(&v), vec!["a", "b"]);
    assert_eq!(v.get("a").and_then(|x| x.as_str()), Some("z"));
    let v = v.insert("c".to_string(), JsonValue::Bool(true));
    assert_eq!(keys(&v), vec!["a", "b", "c"]);
    assert!(matches!(v.get("c"), Some(JsonValue::Bool(true))));
}

#[test]
fn json_insert_into_non_object_changes_nothing() {
    let v = text("x").insert("a".to_string(), text("y"));
    assert_eq!(v.as_str(), Some("x"));
}

#[test]
fn json_index_set_on_null_makes_an_object() {
    let v = JsonValue::Null.index_set("path".to_string(), text("/dev/ttyUSB0"));
    assert_eq!(keys(&v), vec!["path"]);
    assert_eq!(v.get("path").and_then(|x| x.as_str()), Some("/dev/ttyUSB0"));
}

#[test]
fn json_duplicate_is_equal() {
    let v = object(vec![
        ("a", JsonValue::Array(vec![text("x"), JsonValue::Null])),
        ("n", JsonValue::Number(JsonNumber::NegInt(-2))),
    ]);
    let d = v.duplicate();
    assert_eq!(keys(&d), vec!["a", "n"]);
    assert_eq!(d.get("a").and_then(|x| x.as_array()).map(|a| a.len()), Some(2));
    assert_eq!(d.get("n").and_then(|x| x.as_i64()), Some(-2));
    assert_eq!(JsonValue::empty_object().as_object().map(|o| o.len()), Some(0));
    assert_eq!(JsonValue::text("t").as_str(), Some("t"));
}

#[test]
fn registry_insert_get_remove() {
    let mut r: Registry<u32> = Registry::new();
    assert_eq!(r.len(), 0);
    r.insert("a".to_string(), 1);
    r.insert("b".to_string(), 2);
    r.insert("a".to_string(), 3);
    assert_eq!(r.len(), 2);
    assert_eq!(r.get("a"), Some(&3));
    assert_eq!(r.get("b"), Some(&2));
    assert!(r.contains_key("b"));
    assert!(!r.contains_key("c"));
    assert_eq!(r.remove("a"), Some(3));
    assert_eq!(r.remove("a"), None);
    assert_eq!(r.len(), 1);
    assert_eq!(r.key_at_index(0), "b");
    assert_eq!(*r.value_at(0), 2);
}

#[test]
fn registry_of_strings_duplicates() {
    let mut r: Registry<String> = Registry::new();
    r.insert("main.rhai".to_string(), "let x = 1;".to_string());
    let d = r.duplicate();
    assert_eq!(d.len(), 1);
    assert_eq!(d.get("main.rhai").map(|s| s.as_str()), Some("let x = 1;"));
}
