use todo_api::error::Column;
use todo_api::request::UpdateTodo;
use todo_api::sqlite::Value;
use todo_api::statement::{assignments, bind_id, render_set_clause, Statement};

fn text(s: &str) -> Value {
    Value::Text(s.to_string())
}

#[test]
fn transaction_statements_have_no_parameters() {
    assert_eq!(Statement::Begin.sql(), "BEGIN TRANSACTION");
    assert_eq!(Statement::Commit.sql(), "COMMIT");
    assert_eq!(Statement::Rollback.sql(), "ROLLBACK");
    assert_eq!(Statement::Begin.parameters(), vec![]);
    assert_eq!(Statement::Commit.parameters(), vec![]);
    assert_eq!(Statement::Rollback.parameters(), vec![]);
}

#[test]
fn insert_binds_the_title() {
    let statement = Statement::Insert { title: "buy milk".to_string() };
    assert_eq!(statement.sql(), "INSERT INTO todos (title, completed) VALUES (?, false)");
    assert_eq!(statement.parameters(), vec![text("buy milk")]);
}

#[test]
fn insert_does_not_put_the_title_into_the_text() {
    let statement = Statement::Insert { title: "'); DROP TABLE todos; --".to_string() };
    assert_eq!(statement.sql(), "INSERT INTO todos (title, completed) VALUES (?, false)");
    assert_eq!(statement.parameters(), vec![text("'); DROP TABLE todos; --")]);
}

#[test]
fn selects_name_the_three_columns() {
    assert_eq!(Statement::LastInsertId.sql(), "SELECT last_insert_rowid() AS id");
    assert_eq!(Statement::LastInsertId.parameters(), vec![]);
    assert_eq!(Statement::SelectAll.sql(), "SELECT id, title, completed FROM todos");
    assert_eq!(Statement::SelectAll.parameters(), vec![]);
    let by_id = Statement::SelectById { id: 12 };
    assert_eq!(by_id.sql(), "SELECT id, title, completed FROM todos WHERE id = ?");
    assert_eq!(by_id.parameters(), vec![Value::Integer(12)]);
}

#[test]
fn delete_returns_the_id() {
    let statement = Statement::Delete { id: 3 };
    assert_eq!(statement.sql(), "DELETE FROM todos WHERE id = ? RETURNING id");
    assert_eq!(statement.parameters(), vec![Value::Integer(3)]);
}

#[test]
fn update_sets_only_the_title() {
    let changes = UpdateTodo { title: Some("a".to_string()), completed: None };
    let statement = Statement::Update { id: 5, changes };
    assert_eq!(statement.sql(), "UPDATE todos SET title = ? WHERE id = ?");
    assert_eq!(statement.parameters(), vec![text("a"), Value::Integer(5)]);
}

#[test]
fn update_sets_only_the_flag() {
    let changes = UpdateTodo { title: None, completed: Some(true) };
    let statement = Statement::Update { id: 5, changes };
    assert_eq!(statement.sql(), "UPDATE todos SET completed = ? WHERE id = ?");
    assert_eq!(statement.parameters(), vec![Value::Integer(1), Value::Integer(5)]);
    let changes = UpdateTodo { title: None, completed: Some(false) };
    let statement = Statement::Update { id: 5, changes };
    assert_eq!(statement.parameters(), vec![Value::Integer(0), Value::Integer(5)]);
}

#[test]
fn update_sets_both_fields_with_one_comma() {
    let changes = UpdateTodo { title: Some("a".to_string()), completed: Some(false) };
    let statement = Statement::Update { id: 5, changes };
    assert_eq!(statement.sql(), "UPDATE todos SET title = ?, completed = ? WHERE id = ?");
    assert_eq!(statement.parameters(), vec![text("a"), Value::Integer(0), Value::Integer(5)]);
}

#[test]
fn assignments_keep_the_order_of_the_table() {
    let changes = UpdateTodo { title: Some("a".to_string()), completed: Some(true) };
    assert_eq!(
        assignments(&changes),
        vec![(Column::Title, text("a")), (Column::Completed, Value::Integer(1))]
    );
    let changes = UpdateTodo { title: None, completed: None };
    assert_eq!(assignments(&changes), vec![]);
}

#[test]
fn set_clause_has_no_comma_at_its_ends() {
    assert_eq!(render_set_clause(&vec![]), "");
    assert_eq!(render_set_clause(&vec![(Column::Completed, Value::Integer(1))]), "completed = ?");
    assert_eq!(
        render_set_clause(&vec![(Column::Id, Value::Null), (Column::Title, Value::Null), (Column::Completed, Value::Null)]),
        "id = ?, title = ?, completed = ?"
    );
}

#[test]
fn an_id_above_the_signed_range_is_bound_as_a_negative_number() {
    assert_eq!(bind_id(0), Value::Integer(0));
    assert_eq!(bind_id(i64::MAX as u64), Value::Integer(i64::MAX));
    assert_eq!(bind_id(i64::MAX as u64 + 1), Value::Integer(i64::MIN));
    assert_eq!(bind_id(u64::MAX), Value::Integer(-1));
}

#[test]
fn an_update_without_assignments_is_not_well_formed_sql() {
    let changes = UpdateTodo { title: None, completed: None };
    let statement = Statement::Update { id: 5, changes };
    assert_eq!(statement.sql(), "UPDATE todos SET  WHERE id = ?");
}
