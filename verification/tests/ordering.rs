use form_collect::order::order_fields;
use form_collect::text::chars_of;
use form_collect::text::find_first;
use form_collect::text::first_two_words;
use form_collect::text::same_text;

fn strings(items: &[&str]) -> Vec<String> {
    items.iter().map(|s| s.to_string()).collect()
}

#[test]
fn order_follows_first_appearance() {
    let text = "{\"name\":\"a\",\"age\":\"3\",\"task_name\":\"t\"}";
    let keys = strings(&["age", "name", "task_name"]);
    assert_eq!(order_fields(text, &keys), Some(strings(&["name", "age", "task_name"])));
}

#[test]
fn order_counts_appearances_inside_other_names() {
    // "a" first appears inside "name", before the member "a" itself.
    let text = "{\"name\":\"x\",\"a\":\"y\"}";
    let keys = strings(&["a", "name"]);
    assert_eq!(order_fields(text, &keys), Some(strings(&["name", "a"])));
    let text = "{\"b\":\"x\",\"ab\":\"y\"}";
    let keys = strings(&["ab", "b"]);
    assert_eq!(order_fields(text, &keys), Some(strings(&["b", "ab"])));
}

#[test]
fn order_keeps_given_order_on_ties() {
    let text = "{\"ab\":1,\"a\":2}";
    assert_eq!(order_fields(text, &strings(&["a", "ab"])), Some(strings(&["a", "ab"])));
    assert_eq!(order_fields(text, &strings(&["ab", "a"])), Some(strings(&["ab", "a"])));
}

#[test]
fn order_of_no_names_is_empty() {
    assert_eq!(order_fields("{}", &Vec::new()), Some(Vec::new()));
}

#[test]
fn order_fails_when_a_name_is_absent() {
    let text = "{\"a\\u0062\":1}";
    assert_eq!(order_fields(text, &strings(&["ab"])), None);
}

#[test]
fn find_first_counts_bytes_as_str_find_does() {
    let text = "表单 form form";
    assert_eq!(find_first(text.as_bytes(), "form".as_bytes()), Some(7));
    assert_eq!(find_first(text.as_bytes(), "form".as_bytes()), text.find("form"));
    assert_eq!(find_first(text.as_bytes(), "".as_bytes()), Some(0));
    assert_eq!(find_first(text.as_bytes(), "forms".as_bytes()), None);
    assert_eq!(find_first("ab".as_bytes(), "abc".as_bytes()), None);
}

#[test]
fn order_compares_byte_offsets() {
    let text = "{\"表\":\"x\",\"b\":\"y\"}";
    let keys = strings(&["b", "表"]);
    assert_eq!(order_fields(text, &keys), Some(strings(&["表", "b"])));
}

#[test]
fn chars_of_keeps_every_character() {
    assert_eq!(chars_of("a表b"), vec!['a', '表', 'b']);
    assert_eq!(chars_of(""), Vec::<char>::new());
}

#[test]
fn same_text_compares_whole_texts() {
    assert!(same_text("127.0.0.1", "127.0.0.1"));
    assert!(!same_text("127.0.0.1", "127.0.0.10"));
    assert!(!same_text("a", "b"));
    assert!(same_text("", ""));
}

#[test]
fn first_two_words_split_on_unicode_whitespace() {
    assert_eq!(
        first_two_words("  task1 \t 报名表  extra"),
        Some(("task1".to_string(), "报名表".to_string()))
    );
    assert_eq!(
        first_two_words("a\u{3000}b"),
        Some(("a".to_string(), "b".to_string()))
    );
    assert_eq!(first_two_words("only"), None);
    assert_eq!(first_two_words("   "), None);
    assert_eq!(first_two_words(""), None);
}
