use todo_api::json::{render_decimal, render_inference, render_todos};
use todo_api::models::Todo;

fn todo(id: u64, title: &str, completed: bool) -> Todo {
    Todo { id, title: title.to_string(), completed }
}

#[test]
fn a_todo_is_an_object_with_three_members() {
    assert_eq!(todo(1, "buy milk", false).to_json(), r#"{"id":1,"title":"buy milk","completed":false}"#);
    assert_eq!(todo(20, "", true).to_json(), r#"{"id":20,"title":"","completed":true}"#);
}

#[test]
fn quotes_and_backslashes_in_a_title_are_escaped() {
    assert_eq!(
        todo(1, r#"say "hi" \ bye"#, false).to_json(),
        r#"{"id":1,"title":"say \"hi\" \\ bye","completed":false}"#
    );
}

#[test]
fn control_characters_in_a_title_are_escaped() {
    assert_eq!(
        todo(1, "a\u{8}b\tc\nd\u{c}e\rf", false).to_json(),
        r#"{"id":1,"title":"a\bb\tc\nd\fe\rf","completed":false}"#
    );
    assert_eq!(
        todo(1, "\u{0}\u{1}\u{b}\u{1f}", false).to_json(),
        r#"{"id":1,"title":"\u0000\u0001\u000b\u001f","completed":false}"#
    );
}

#[test]
fn other_characters_in_a_title_stand_for_themselves() {
    assert_eq!(
        todo(1, " /'\u{7f}\u{e9}\u{20ac}\u{1f600}", false).to_json(),
        "{\"id\":1,\"title\":\" /'\u{7f}\u{e9}\u{20ac}\u{1f600}\",\"completed\":false}"
    );
}

#[test]
fn numbers_are_written_in_decimal() {
    assert_eq!(render_decimal(0), "0");
    assert_eq!(render_decimal(9), "9");
    assert_eq!(render_decimal(10), "10");
    assert_eq!(render_decimal(1234567890), "1234567890");
    assert_eq!(render_decimal(u64::MAX), "18446744073709551615");
    assert_eq!(todo(u64::MAX, "a", false).to_json(), r#"{"id":18446744073709551615,"title":"a","completed":false}"#);
}

#[test]
fn a_list_is_an_array() {
    assert_eq!(render_todos(&vec![]), "[]");
    assert_eq!(render_todos(&vec![todo(1, "a", false)]), r#"[{"id":1,"title":"a","completed":false}]"#);
    assert_eq!(
        render_todos(&vec![todo(1, "a", false), todo(2, "b", true), todo(3, "c", false)]),
        r#"[{"id":1,"title":"a","completed":false},{"id":2,"title":"b","completed":true},{"id":3,"title":"c","completed":false}]"#
    );
}

#[test]
fn an_inference_is_an_object_with_one_member() {
    assert_eq!(render_inference("hello"), r#"{"response":"hello"}"#);
    assert_eq!(render_inference("a \"b\"\n"), r#"{"response":"a \"b\"\n"}"#);
    assert_eq!(render_inference(""), r#"{"response":""}"#);
}

#[test]
fn the_json_text_reads_back_as_the_todo() {
    let text = todo(7, "a \"b\" \\ \n \u{1} \u{e9}", true).to_json();
    let value: serde_json::Value = serde_json::from_str(&text).unwrap();
    assert_eq!(value.get("id").and_then(|v| v.as_u64()), Some(7));
    assert_eq!(value.get("title").and_then(|v| v.as_str()), Some("a \"b\" \\ \n \u{1} \u{e9}"));
    assert_eq!(value.get("completed").and_then(|v| v.as_bool()), Some(true));
    assert_eq!(value.as_object().map(|o| o.len()), Some(3));
}
