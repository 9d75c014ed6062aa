use todo_api::error::{Column, DecodeError};
use todo_api::models::Todo;
use todo_api::sqlite::{find_column, QueryResult, Row, RowResult, Value};

fn names(columns: &[&str]) -> Vec<String> {
    columns.iter().map(|c| c.to_string()).collect()
}

fn text(s: &str) -> Value {
    Value::Text(s.to_string())
}

fn decode(columns: &[&str], values: Vec<Value>) -> Result<Todo, DecodeError> {
    let columns = names(columns);
    let result = RowResult { values };
    Todo::from_row(&Row { columns: &columns, result: &result })
}

#[test]
fn an_integer_reads_as_an_unsigned_number_unless_negative() {
    assert_eq!(Value::Integer(0).as_u64(), Some(0));
    assert_eq!(Value::Integer(i64::MAX).as_u64(), Some(i64::MAX as u64));
    assert_eq!(Value::Integer(-1).as_u64(), None);
    assert_eq!(Value::Integer(i64::MIN).as_u64(), None);
    assert_eq!(text("1").as_u64(), None);
    assert_eq!(Value::Real(0).as_u64(), None);
    assert_eq!(Value::Blob(vec![1]).as_u64(), None);
    assert_eq!(Value::Null.as_u64(), None);
}

#[test]
fn an_integer_reads_as_a_flag() {
    assert_eq!(Value::Integer(0).as_bool(), Some(false));
    assert_eq!(Value::Integer(1).as_bool(), Some(true));
    assert_eq!(Value::Integer(-7).as_bool(), Some(true));
    assert_eq!(text("true").as_bool(), None);
    assert_eq!(Value::Null.as_bool(), None);
}

#[test]
fn a_text_reads_as_a_text() {
    assert_eq!(text("buy milk").as_text(), Some("buy milk".to_string()));
    assert_eq!(text("").as_text(), Some(String::new()));
    assert_eq!(Value::Integer(1).as_text(), None);
    assert_eq!(Value::Null.as_text(), None);
}

#[test]
fn a_blob_reads_as_a_text_if_it_is_utf8() {
    assert_eq!(Value::Blob(vec![0x6d, 0x69, 0x6c, 0x6b]).as_text(), Some("milk".to_string()));
    assert_eq!(Value::Blob(vec![0xc3, 0xa9]).as_text(), Some("\u{e9}".to_string()));
    assert_eq!(Value::Blob(vec![0xe2, 0x82, 0xac, 0xf0, 0x9f, 0x98, 0x80]).as_text(), Some("\u{20ac}\u{1f600}".to_string()));
    assert_eq!(Value::Blob(vec![]).as_text(), Some(String::new()));
    assert_eq!(Value::Blob(vec![0xff]).as_text(), None);
    assert_eq!(Value::Blob(vec![0xc3]).as_text(), None);
    assert_eq!(Value::Blob(vec![0xc0, 0x80]).as_text(), None);
    assert_eq!(Value::Blob(vec![0xed, 0xa0, 0x80]).as_text(), None);
}

#[test]
fn a_column_is_found_by_its_name_at_its_first_position() {
    let columns = names(&["id", "title", "completed", "title"]);
    assert_eq!(find_column(&columns, "id"), Some(0));
    assert_eq!(find_column(&columns, "title"), Some(1));
    assert_eq!(find_column(&columns, "completed"), Some(2));
    assert_eq!(find_column(&columns, "Title"), None);
    assert_eq!(find_column(&columns, "titl"), None);
    assert_eq!(find_column(&columns, ""), None);
    assert_eq!(find_column(&vec![], "id"), None);
}

#[test]
fn a_row_is_read_by_position() {
    let row = RowResult { values: vec![Value::Integer(3), text("a"), Value::Integer(1)] };
    assert_eq!(row.get_u64(0), Some(3));
    assert_eq!(row.get_text(1), Some("a".to_string()));
    assert_eq!(row.get_bool(2), Some(true));
    assert_eq!(row.get_u64(1), None);
    assert_eq!(row.get_u64(3), None);
    assert_eq!(row.get_text(3), None);
    assert_eq!(row.get_bool(usize::MAX), None);
}

#[test]
fn a_row_is_read_by_name() {
    let columns = names(&["completed", "id", "title"]);
    let result = RowResult { values: vec![Value::Integer(0), Value::Integer(3), text("a")] };
    let row = Row { columns: &columns, result: &result };
    assert_eq!(row.get_u64("id"), Some(3));
    assert_eq!(row.get_text("title"), Some("a".to_string()));
    assert_eq!(row.get_bool("completed"), Some(false));
    assert_eq!(row.get_u64("title"), None);
    assert_eq!(row.get_u64("other"), None);
}

#[test]
fn a_result_hands_out_its_rows_with_its_columns() {
    let result = QueryResult {
        columns: names(&["id"]),
        rows: vec![RowResult { values: vec![Value::Integer(1)] }, RowResult { values: vec![Value::Integer(2)] }],
    };
    assert_eq!(result.row(1).unwrap().get_u64("id"), Some(2));
    assert!(result.row(2).is_none());
    let empty = QueryResult::empty();
    assert!(empty.columns.is_empty() && empty.rows.is_empty());
    assert!(empty.row(0).is_none());
}

#[test]
fn from_row_decodes_a_row_of_the_table() {
    assert_eq!(
        decode(&["id", "title", "completed"], vec![Value::Integer(1), text("buy milk"), Value::Integer(0)]),
        Ok(Todo { id: 1, title: "buy milk".to_string(), completed: false })
    );
}

#[test]
fn from_row_goes_by_the_names_of_the_columns() {
    assert_eq!(
        decode(
            &["title", "extra", "completed", "id"],
            vec![text("a"), Value::Null, Value::Integer(1), Value::Integer(9)]
        ),
        Ok(Todo { id: 9, title: "a".to_string(), completed: true })
    );
}

#[test]
fn from_row_names_the_column_that_is_missing() {
    let values = vec![Value::Integer(1), text("a")];
    assert_eq!(decode(&["title", "completed"], values.clone()), Err(DecodeError { column: Column::Id }));
    assert_eq!(decode(&["id", "completed"], values.clone()), Err(DecodeError { column: Column::Title }));
    assert_eq!(decode(&["id", "title"], values), Err(DecodeError { column: Column::Completed }));
    assert_eq!(decode(&[], vec![]), Err(DecodeError { column: Column::Id }));
}

#[test]
fn from_row_names_the_column_of_the_wrong_kind() {
    let columns = ["id", "title", "completed"];
    assert_eq!(
        decode(&columns, vec![text("1"), text("a"), Value::Integer(0)]),
        Err(DecodeError { column: Column::Id })
    );
    assert_eq!(
        decode(&columns, vec![Value::Integer(-1), text("a"), Value::Integer(0)]),
        Err(DecodeError { column: Column::Id })
    );
    assert_eq!(
        decode(&columns, vec![Value::Integer(1), Value::Integer(2), Value::Integer(0)]),
        Err(DecodeError { column: Column::Title })
    );
    assert_eq!(
        decode(&columns, vec![Value::Integer(1), text("a"), text("false")]),
        Err(DecodeError { column: Column::Completed })
    );
    assert_eq!(
        decode(&columns, vec![Value::Null, Value::Null, Value::Null]),
        Err(DecodeError { column: Column::Id })
    );
}

#[test]
fn from_row_fails_on_a_row_shorter_than_its_columns() {
    assert_eq!(
        decode(&["id", "title", "completed"], vec![Value::Integer(1), text("a")]),
        Err(DecodeError { column: Column::Completed })
    );
}

#[test]
fn column_names_are_those_of_the_table() {
    assert_eq!(Column::Id.name(), "id");
    assert_eq!(Column::Title.name(), "title");
    assert_eq!(Column::Completed.name(), "completed");
}
