use mcmeta::decimal::{i32_to_string, parse_i32, u64_to_string};
use mcmeta::order::{str_place, Place};
use mcmeta::strmap::StrMap;
use mcmeta::text::{chars_of, contains_str, replace_char, split, string_of};

fn parse(s: &str) -> Option<i32> {
    let v = chars_of(s);
    parse_i32(&v, 0, v.len())
}

#[test]
fn decimal_reads_signed_numbers() {
    assert_eq!(parse("0"), Some(0));
    assert_eq!(parse("37"), Some(37));
    assert_eq!(parse("+12"), Some(12));
    assert_eq!(parse("-12"), Some(-12));
    assert_eq!(parse("007"), Some(7));
    assert_eq!(parse("2147483647"), Some(i32::MAX));
    assert_eq!(parse("-2147483648"), Some(i32::MIN));
}

#[test]
fn decimal_rejects_what_is_no_number() {
    assert_eq!(parse(""), None);
    assert_eq!(parse("-"), None);
    assert_eq!(parse("+"), None);
    assert_eq!(parse("12a"), None);
    assert_eq!(parse(" 12"), None);
    assert_eq!(parse("2147483648"), None);
    assert_eq!(parse("-2147483649"), None);
    assert_eq!(parse("99999999999999999999999"), None);
}

#[test]
fn decimal_reads_a_part_of_the_text() {
    let v = chars_of("1.20-47.2.20");
    assert_eq!(parse_i32(&v, 10, 12), Some(20));
    assert_eq!(parse_i32(&v, 5, 7), Some(47));
    assert_eq!(parse_i32(&v, 4, 7), Some(-47));
    assert_eq!(parse_i32(&v, 3, 3), None);
}

#[test]
fn decimal_writes_numbers() {
    assert_eq!(i32_to_string(0), "0");
    assert_eq!(i32_to_string(7), "7");
    assert_eq!(i32_to_string(2851), "2851");
    assert_eq!(i32_to_string(-45), "-45");
    assert_eq!(i32_to_string(i32::MAX), "2147483647");
    assert_eq!(i32_to_string(i32::MIN), "-2147483648");
    assert_eq!(u64_to_string(0), "0");
    assert_eq!(u64_to_string(10), "10");
    assert_eq!(u64_to_string(u64::MAX), "18446744073709551615");
}

#[test]
fn written_numbers_read_back() {
    for n in [0, 1, -1, 9, 10, 99, 100, 12345, -98765, i32::MAX, i32::MIN] {
        assert_eq!(parse(&i32_to_string(n)), Some(n));
    }
}

#[test]
fn split_cuts_at_every_separator() {
    assert_eq!(split("a:b:c", ':'), vec!["a", "b", "c"]);
    assert_eq!(split("abc", ':'), vec!["abc"]);
    assert_eq!(split("", ':'), vec![""]);
    assert_eq!(split(":", ':'), vec!["", ""]);
    assert_eq!(split("a::b", ':'), vec!["a", "", "b"]);
    assert_eq!(split("a:", ':'), vec!["a", ""]);
}

#[test]
fn text_helpers() {
    assert_eq!(mcmeta::text::concat("ab", "cd"), "abcd");
    assert_eq!(replace_char("org.lwjgl.lwjgl", '.', '/'), "org/lwjgl/lwjgl");
    let v = chars_of("héllo");
    assert_eq!(v.len(), 5);
    assert_eq!(string_of(&v, 1, 4), "éll");
    let list = vec!["a".to_string(), "bc".to_string()];
    assert!(contains_str(&list, "bc"));
    assert!(!contains_str(&list, "b"));
}

#[test]
fn strings_are_ordered_character_by_character() {
    assert_eq!(str_place("a", "b"), Place::Before);
    assert_eq!(str_place("b", "a"), Place::After);
    assert_eq!(str_place("abc", "abc"), Place::Same);
    assert_eq!(str_place("ab", "abc"), Place::Before);
    assert_eq!(str_place("abc", "ab"), Place::After);
    assert_eq!(str_place("", ""), Place::Same);
    assert_eq!(str_place("", "a"), Place::Before);
    assert_eq!(str_place("client", "universal"), Place::Before);
    assert_eq!(str_place("1.10", "1.9"), Place::Before);
}

#[test]
fn map_keeps_its_keys_in_order() {
    let mut m: StrMap<i32> = StrMap::new();
    assert_eq!(m.len(), 0);
    assert_eq!(m.insert("b".to_string(), 2), None);
    assert_eq!(m.insert("a".to_string(), 1), None);
    assert_eq!(m.insert("c".to_string(), 3), None);
    assert_eq!(m.len(), 3);
    assert_eq!(m.key_at(0), "a");
    assert_eq!(m.key_at(1), "b");
    assert_eq!(m.key_at(2), "c");
    assert_eq!(*m.value_at(1), 2);
    assert_eq!(m.get("b"), Some(&2));
    assert_eq!(m.get("d"), None);
    assert!(m.contains_key("c"));
    assert!(!m.contains_key(""));
    assert_eq!(m.index_of_key("c"), Some(2));
    assert_eq!(m.index_of_key("bb"), None);
}

#[test]
fn map_replaces_and_removes() {
    let mut m: StrMap<i32> = StrMap::new();
    m.insert("k".to_string(), 1);
    assert_eq!(m.insert("k".to_string(), 5), Some(1));
    assert_eq!(m.len(), 1);
    assert_eq!(m.get("k"), Some(&5));
    assert_eq!(m.replace_at(0, 9), 5);
    assert_eq!(m.get("k"), Some(&9));
    assert_eq!(m.remove("x"), None);
    assert_eq!(m.remove("k"), Some(9));
    assert_eq!(m.len(), 0);
    m.insert("z".to_string(), 26);
    m.insert("y".to_string(), 25);
    let copy = m.clone();
    assert_eq!(copy, m);
    assert_eq!(
        m.into_entries(),
        vec![("y".to_string(), 25), ("z".to_string(), 26)]
    );
}
