use todo_api::commands::{create_todo, delete_todo, update_todo};
use todo_api::error::TodoError;
use todo_api::models::Todo;
use todo_api::protocol::{Event, Stage, Step};
use todo_api::queries::{find_todo, load_todos};
use todo_api::request::{CreateTodo, UpdateTodo};
use todo_api::sqlite::{QueryResult, RowResult, Value};
use todo_api::statement::Statement;

fn no_rows() -> Event {
    Event::Rows(QueryResult { columns: vec![], rows: vec![] })
}

fn rows(columns: &[&str], rows: Vec<Vec<Value>>) -> Event {
    Event::Rows(QueryResult {
        columns: columns.iter().map(|c| c.to_string()).collect(),
        rows: rows.into_iter().map(|values| RowResult { values }).collect(),
    })
}

fn text(s: &str) -> Value {
    Value::Text(s.to_string())
}

fn milk() -> CreateTodo {
    CreateTodo { title: "buy milk".to_string() }
}

fn done() -> UpdateTodo {
    UpdateTodo { title: None, completed: Some(true) }
}

fn send<T>(statement: Statement, next: Stage) -> Step<T> {
    Step::Execute { statement, next }
}

fn fault<T>() -> Step<T> {
    Step::Done(Err(TodoError::StorageFault))
}

const TODO_COLUMNS: [&str; 3] = ["id", "title", "completed"];

#[test]
fn create_runs_insert_and_id_query_inside_a_transaction() {
    let new = milk();
    assert_eq!(create_todo(&new, Stage::Start, Event::Start), send(Statement::Begin, Stage::Opening));
    assert_eq!(
        create_todo(&new, Stage::Opening, no_rows()),
        send(Statement::Insert { title: "buy milk".to_string() }, Stage::Writing)
    );
    assert_eq!(
        create_todo(&new, Stage::Writing, no_rows()),
        send(Statement::LastInsertId, Stage::Identifying)
    );
    assert_eq!(
        create_todo(&new, Stage::Identifying, rows(&["id"], vec![vec![Value::Integer(7)]])),
        send(Statement::Commit, Stage::Committing { id: 7 })
    );
    assert_eq!(
        create_todo(&new, Stage::Committing { id: 7 }, no_rows()),
        Step::Done(Ok(Todo { id: 7, title: "buy milk".to_string(), completed: false }))
    );
}

#[test]
fn create_fails_without_rollback_when_the_transaction_does_not_open() {
    assert_eq!(create_todo(&milk(), Stage::Opening, Event::Fault), fault());
}

#[test]
fn create_rolls_back_when_the_insert_fails() {
    let new = milk();
    assert_eq!(
        create_todo(&new, Stage::Writing, Event::Fault),
        send(Statement::Rollback, Stage::RollingBack)
    );
    assert_eq!(create_todo(&new, Stage::RollingBack, no_rows()), fault());
    assert_eq!(create_todo(&new, Stage::RollingBack, Event::Fault), fault());
}

#[test]
fn create_rolls_back_when_the_id_does_not_come_back() {
    let new = milk();
    let rollback = send(Statement::Rollback, Stage::RollingBack);
    assert_eq!(create_todo(&new, Stage::Identifying, Event::Fault), rollback);
    assert_eq!(create_todo(&new, Stage::Identifying, no_rows()), rollback);
    assert_eq!(create_todo(&new, Stage::Identifying, rows(&["id"], vec![])), rollback);
    assert_eq!(create_todo(&new, Stage::Identifying, rows(&["id"], vec![vec![]])), rollback);
    assert_eq!(
        create_todo(&new, Stage::Identifying, rows(&["rowid"], vec![vec![Value::Integer(7)]])),
        rollback
    );
    assert_eq!(
        create_todo(&new, Stage::Identifying, rows(&["id"], vec![vec![Value::Integer(-1)]])),
        rollback
    );
    assert_eq!(
        create_todo(&new, Stage::Identifying, rows(&["id"], vec![vec![text("7")]])),
        rollback
    );
    assert_eq!(
        create_todo(&new, Stage::Identifying, rows(&["id"], vec![vec![Value::Null]])),
        rollback
    );
}

#[test]
fn create_takes_the_id_of_the_first_row() {
    let reply = rows(&["id"], vec![vec![Value::Integer(0)], vec![Value::Integer(9)]]);
    assert_eq!(
        create_todo(&milk(), Stage::Identifying, reply),
        send(Statement::Commit, Stage::Committing { id: 0 })
    );
}

#[test]
fn create_fails_when_the_commit_fails() {
    assert_eq!(create_todo(&milk(), Stage::Committing { id: 7 }, Event::Fault), fault());
}

#[test]
fn create_fails_at_a_stage_that_it_never_asks_for() {
    assert_eq!(create_todo(&milk(), Stage::Reading, no_rows()), fault());
}

#[test]
fn an_event_of_the_wrong_kind_counts_as_a_fault() {
    assert_eq!(create_todo(&milk(), Stage::Opening, Event::Start), fault());
    assert_eq!(find_todo(1, Stage::Reading, Event::Start), fault());
    assert_eq!(delete_todo(1, Stage::Writing, Event::Start), fault());
    assert_eq!(load_todos(Stage::Reading, Event::Start), fault());
}

#[test]
fn update_without_fields_sends_nothing() {
    let nothing = UpdateTodo { title: None, completed: None };
    let invalid = Step::Done(Err(TodoError::Validation));
    assert_eq!(update_todo(1, &nothing, Stage::Start, Event::Start), invalid);
    assert_eq!(update_todo(999, &nothing, Stage::Start, Event::Start), invalid);
    assert_eq!(update_todo(1, &nothing, Stage::Opening, no_rows()), invalid);
}

#[test]
fn update_writes_commits_and_reads_the_record_again() {
    let changes = done();
    assert_eq!(update_todo(3, &changes, Stage::Start, Event::Start), send(Statement::Begin, Stage::Opening));
    assert_eq!(
        update_todo(3, &changes, Stage::Opening, no_rows()),
        send(Statement::Update { id: 3, changes: done() }, Stage::Writing)
    );
    assert_eq!(
        update_todo(3, &changes, Stage::Writing, no_rows()),
        send(Statement::Commit, Stage::Committing { id: 3 })
    );
    assert_eq!(
        update_todo(3, &changes, Stage::Committing { id: 3 }, no_rows()),
        send(Statement::SelectById { id: 3 }, Stage::Reading)
    );
    let reply = rows(&TODO_COLUMNS, vec![vec![Value::Integer(3), text("a"), Value::Integer(1)]]);
    assert_eq!(
        update_todo(3, &changes, Stage::Reading, reply),
        Step::Done(Ok(Todo { id: 3, title: "a".to_string(), completed: true }))
    );
}

#[test]
fn update_of_a_missing_record_is_not_found() {
    assert_eq!(
        update_todo(3, &done(), Stage::Reading, rows(&TODO_COLUMNS, vec![])),
        Step::Done(Err(TodoError::NotFound))
    );
}

#[test]
fn update_rolls_back_when_the_update_fails() {
    let changes = done();
    assert_eq!(update_todo(3, &changes, Stage::Opening, Event::Fault), fault());
    assert_eq!(
        update_todo(3, &changes, Stage::Writing, Event::Fault),
        send(Statement::Rollback, Stage::RollingBack)
    );
    assert_eq!(update_todo(3, &changes, Stage::RollingBack, no_rows()), fault());
    assert_eq!(update_todo(3, &changes, Stage::Committing { id: 3 }, Event::Fault), fault());
    assert_eq!(update_todo(3, &changes, Stage::Reading, Event::Fault), fault());
}

#[test]
fn delete_is_done_when_a_row_comes_back() {
    assert_eq!(delete_todo(4, Stage::Start, Event::Start), send(Statement::Delete { id: 4 }, Stage::Writing));
    assert_eq!(
        delete_todo(4, Stage::Writing, rows(&["id"], vec![vec![Value::Integer(4)]])),
        Step::Done(Ok(()))
    );
}

#[test]
fn delete_of_a_missing_record_is_not_found() {
    assert_eq!(
        delete_todo(4, Stage::Writing, rows(&["id"], vec![])),
        Step::Done(Err(TodoError::NotFound))
    );
    assert_eq!(delete_todo(4, Stage::Writing, no_rows()), Step::Done(Err(TodoError::NotFound)));
}

#[test]
fn delete_fails_when_the_engine_fails() {
    assert_eq!(delete_todo(4, Stage::Writing, Event::Fault), fault());
    assert_eq!(delete_todo(4, Stage::Reading, no_rows()), fault());
}

#[test]
fn find_reads_the_first_row() {
    assert_eq!(find_todo(2, Stage::Start, Event::Start), send(Statement::SelectById { id: 2 }, Stage::Reading));
    let reply = rows(
        &TODO_COLUMNS,
        vec![
            vec![Value::Integer(2), text("a"), Value::Integer(0)],
            vec![Value::Integer(5), text("b"), Value::Integer(1)],
        ],
    );
    assert_eq!(
        find_todo(2, Stage::Reading, reply),
        Step::Done(Ok(Todo { id: 2, title: "a".to_string(), completed: false }))
    );
}

#[test]
fn find_without_rows_is_not_found() {
    assert_eq!(
        find_todo(2, Stage::Reading, rows(&TODO_COLUMNS, vec![])),
        Step::Done(Err(TodoError::NotFound))
    );
}

#[test]
fn find_fails_on_a_row_that_does_not_decode() {
    let reply = rows(&TODO_COLUMNS, vec![vec![Value::Integer(2), Value::Null, Value::Integer(0)]]);
    assert_eq!(find_todo(2, Stage::Reading, reply), fault());
    assert_eq!(find_todo(2, Stage::Reading, Event::Fault), fault());
    assert_eq!(find_todo(2, Stage::Writing, no_rows()), fault());
}

#[test]
fn load_decodes_every_row_in_order() {
    assert_eq!(load_todos(Stage::Start, Event::Start), send(Statement::SelectAll, Stage::Reading));
    let reply = rows(
        &TODO_COLUMNS,
        vec![
            vec![Value::Integer(2), text("a"), Value::Integer(0)],
            vec![Value::Integer(1), text("b"), Value::Integer(1)],
        ],
    );
    assert_eq!(
        load_todos(Stage::Reading, reply),
        Step::Done(Ok(vec![
            Todo { id: 2, title: "a".to_string(), completed: false },
            Todo { id: 1, title: "b".to_string(), completed: true },
        ]))
    );
}

#[test]
fn load_of_no_rows_is_an_empty_list() {
    assert_eq!(load_todos(Stage::Reading, rows(&TODO_COLUMNS, vec![])), Step::Done(Ok(vec![])));
    assert_eq!(load_todos(Stage::Reading, no_rows()), Step::Done(Ok(vec![])));
}

#[test]
fn load_fails_when_one_row_does_not_decode() {
    let reply = rows(
        &TODO_COLUMNS,
        vec![
            vec![Value::Integer(2), text("a"), Value::Integer(0)],
            vec![Value::Integer(1), text("b")],
        ],
    );
    assert_eq!(load_todos(Stage::Reading, reply), fault());
    assert_eq!(load_todos(Stage::Reading, Event::Fault), fault());
    assert_eq!(load_todos(Stage::Opening, no_rows()), fault());
}
