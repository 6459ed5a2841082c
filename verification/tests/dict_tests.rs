use fbihtax::dict::FieldDict;
use fbihtax::format::utils::{fill_template, replace_all};

fn entries(dict: &FieldDict) -> Vec<(String, String)> {
    let mut all = Vec::new();
    for i in 0..dict.len() {
        let entry = dict.entry(i).unwrap();
        all.push((entry.key.clone(), entry.value.clone()));
    }
    all
}

fn pair(key: &str, value: &str) -> (String, String) {
    (key.to_string(), value.to_string())
}

#[test]
fn a_new_dictionary_is_empty() {
    let dict = FieldDict::new();
    assert_eq!(0, dict.len());
    assert!(dict.entry(0).is_none());
    assert!(dict.get(&"a".to_string()).is_none());
}

#[test]
fn insert_keeps_the_order_of_first_arrival() {
    let mut dict = FieldDict::new();
    dict.insert("b".to_string(), "1".to_string());
    dict.insert("a".to_string(), "2".to_string());
    dict.insert("c".to_string(), "3".to_string());
    dict.insert("a".to_string(), "4".to_string());
    assert_eq!(vec![pair("b", "1"), pair("a", "4"), pair("c", "3")], entries(&dict));
    assert_eq!(Some(&"4".to_string()), dict.get(&"a".to_string()));
    assert_eq!(Some(&"1".to_string()), dict.get(&"b".to_string()));
    assert_eq!(None, dict.get(&"d".to_string()));
    assert!(dict.entry(3).is_none());
}

#[test]
fn insert_twice_leaves_the_second_value() {
    let mut twice = FieldDict::new();
    twice.insert("x".to_string(), "0".to_string());
    twice.insert("k".to_string(), "first".to_string());
    twice.insert("k".to_string(), "second".to_string());
    let mut once = FieldDict::new();
    once.insert("x".to_string(), "0".to_string());
    once.insert("k".to_string(), "second".to_string());
    assert_eq!(entries(&once), entries(&twice));
}

#[test]
fn keys_are_told_apart_by_every_character() {
    let mut dict = FieldDict::new();
    dict.insert("".to_string(), "empty".to_string());
    dict.insert("a".to_string(), "1".to_string());
    dict.insert("A".to_string(), "2".to_string());
    dict.insert("a ".to_string(), "3".to_string());
    dict.insert("ž".to_string(), "4".to_string());
    assert_eq!(5, dict.len());
    assert_eq!(Some(&"empty".to_string()), dict.get(&"".to_string()));
    assert_eq!(Some(&"4".to_string()), dict.get(&"ž".to_string()));
}

#[test]
fn replace_all_replaces_every_occurrence() {
    assert_eq!("a-b-c", replace_all("a{x}b{x}c", "{x}", "-"));
    assert_eq!("abc", replace_all("abc", "{x}", "-"));
    assert_eq!("", replace_all("", "{x}", "-"));
    assert_eq!("--", replace_all("{x}{x}", "{x}", "-"));
    assert_eq!("{x", replace_all("{x", "{x}", "-"));
    assert_eq!("x{x}x", replace_all("{x}", "{x}", "x{x}x"));
    assert_eq!("abc", replace_all("abc", "", "-"));
    assert_eq!("ba", replace_all("aaa", "aa", "b"));
    assert_eq!("žb", replace_all("ža", "a", "b"));
    assert_eq!("b", replace_all("ž", "ž", "b"));
}

#[test]
fn replace_all_agrees_with_the_standard_library() {
    let texts = ["", "a", "aaaa", "abab", "{a}{b}{a}", "x{a", "{{a}}", "žđ{a}č", "aXbXc"];
    let patterns = ["a", "aa", "ab", "{a}", "X", "ž", "{", "}"];
    let values = ["", "b", "{a}", "žž"];
    for text in texts {
        for pattern in patterns {
            for value in values {
                assert_eq!(text.replace(pattern, value), replace_all(text, pattern, value));
            }
        }
    }
}

#[test]
fn fill_template_puts_each_value_in_its_place() {
    let mut data = FieldDict::new();
    data.insert("income_tax".to_string(), "76.80".to_string());
    data.insert("total".to_string(), "108.80".to_string());
    assert_eq!(
        "Income tax: 76.80\nTotal: 108.80 (108.80)\n{other}",
        fill_template("Income tax: {income_tax}\nTotal: {total} ({total})\n{other}".to_string(), data)
    );
}

#[test]
fn fill_template_takes_the_entries_in_turn() {
    let mut data = FieldDict::new();
    data.insert("a".to_string(), "{b}".to_string());
    data.insert("b".to_string(), "end".to_string());
    assert_eq!("end end", fill_template("{a} {b}".to_string(), data));
    let mut data = FieldDict::new();
    data.insert("b".to_string(), "end".to_string());
    data.insert("a".to_string(), "{b}".to_string());
    assert_eq!("{b} end", fill_template("{a} {b}".to_string(), data));
}

#[test]
fn fill_template_without_data_changes_nothing() {
    assert_eq!("{a} b", fill_template("{a} b".to_string(), FieldDict::new()));
}
