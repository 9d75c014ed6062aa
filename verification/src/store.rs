//! A storage engine in memory: one `todos` table with ids that grow and are
//! never given twice, and transactions that roll back to the state at
//! BEGIN. It answers the statements of [`crate::statement`] as SQLite does
//! for that table.

use vstd::prelude::*;
use crate::models::{views, Todo, TodoView};
use crate::protocol::Event;
use crate::request::UpdateTodo;
use crate::sqlite::{row_views, value_views, QueryResult, RowResult, RowsView, Value, ValueView};
use crate::statement::Statement;

verus! {

/// The highest id that the table can give: SQLite keeps ids as signed 64-bit
/// integers.
pub const MAX_ID: u64 = 0x7fff_ffff_ffff_ffff;

/// The table and the connection as mathematical values.
pub struct StoreState {
    /// The records, in the order in which the table lists them.
    pub rows: Seq<TodoView>,
    /// The highest id given so far; 0 before the first insert.
    pub last_id: u64,
    /// The id of the row inserted last, which a rollback does not take
    /// back; 0 before the first insert.
    pub last_rowid: u64,
    /// Inside a transaction: the records and the highest id at BEGIN.
    pub saved: Option<(Seq<TodoView>, u64)>,
}

/// The first position at or after `from` of a record with this id.
pub open spec fn index_from(rows: Seq<TodoView>, id: u64, from: int) -> Option<int>
    decreases rows.len() - from,
{
    if from < 0 || from >= rows.len() {
        None
    } else if rows[from].id == id {
        Some(from)
    } else {
        index_from(rows, id, from + 1)
    }
}

/// The position of the record with this id.
pub open spec fn index_of(rows: Seq<TodoView>, id: u64) -> Option<int> {
    index_from(rows, id, 0)
}

/// The record with this id.
pub open spec fn record(rows: Seq<TodoView>, id: u64) -> Option<TodoView> {
    match index_of(rows, id) {
        Some(i) => Some(rows[i]),
        None => None,
    }
}

/// The ids are positive, no higher than `last_id`, and grow along the list,
/// so that no two records share one.
pub open spec fn ordered(rows: Seq<TodoView>, last_id: u64) -> bool {
    &&& last_id <= MAX_ID
    &&& forall|i: int| 0 <= i < rows.len() ==> 1 <= (#[trigger] rows[i]).id <= last_id
    &&& forall|i: int, j: int| 0 <= i < j < rows.len() ==> (#[trigger] rows[i]).id < (#[trigger] rows[j]).id
}

/// `index_from` finds the first record with the id and no other.
pub proof fn lemma_index(rows: Seq<TodoView>, id: u64, from: int)
    requires
        0 <= from,
    ensures
        match index_from(rows, id, from) {
            Some(i) => from <= i < rows.len() && rows[i].id == id && forall|j: int|
                from <= j < i ==> rows[j].id != id,
            None => forall|j: int| from <= j < rows.len() ==> rows[j].id != id,
        },
    decreases rows.len() - from,
{
    if from < rows.len() && rows[from].id != id {
        lemma_index(rows, id, from + 1);
    }
}

/// The record `todo` after an update: the fields that `changes` names take
/// their new value, the others and the id stay.
pub open spec fn changed(todo: TodoView, changes: UpdateTodo) -> TodoView {
    TodoView {
        id: todo.id,
        title: match changes.title {
            Some(title) => title@,
            None => todo.title,
        },
        completed: match changes.completed {
            Some(completed) => completed,
            None => todo.completed,
        },
    }
}

/// The names of the table's columns.
pub open spec fn todo_columns() -> Seq<Seq<char>> {
    seq!["id"@, "title"@, "completed"@]
}

/// A record as a row of the table: the flag is stored as 1 or 0.
pub open spec fn todo_row(todo: TodoView) -> Seq<ValueView> {
    seq![
        ValueView::Integer(todo.id as i64),
        ValueView::Text(todo.title),
        ValueView::Integer(if todo.completed { 1i64 } else { 0i64 }),
    ]
}

/// The reply to a statement that produces no rows.
pub open spec fn no_rows() -> RowsView {
    RowsView { columns: seq![], rows: seq![] }
}

/// The reply that lists ids in a single column `id`.
pub open spec fn id_rows(ids: Seq<u64>) -> RowsView {
    RowsView {
        columns: seq!["id"@],
        rows: ids.map_values(|id: u64| seq![ValueView::Integer(id as i64)]),
    }
}

/// The reply that lists records under the table's columns.
pub open spec fn todo_rows(todos: Seq<TodoView>) -> RowsView {
    RowsView { columns: todo_columns(), rows: todos.map_values(|t: TodoView| todo_row(t)) }
}

impl StoreState {
    /// Whether a transaction is open.
    pub open spec fn in_transaction(self) -> bool {
        self.saved is Some
    }

    /// The state is one that the engine can be in.
    pub open spec fn wf(self) -> bool {
        &&& ordered(self.rows, self.last_id)
        &&& self.last_rowid <= MAX_ID
        &&& self.saved matches Some((rows, last_id)) ==> ordered(rows, last_id)
    }

    /// What a statement does to the state, and the rows it produces; no
    /// rows at all where the engine refuses the statement.
    ///
    /// BEGIN is refused inside a transaction, COMMIT and ROLLBACK outside
    /// of one, an insert once the ids are used up, an update that sets
    /// nothing. A refused statement changes nothing.
    pub open spec fn run(self, statement: Statement) -> (StoreState, Option<RowsView>) {
        match statement {
            Statement::Begin => if self.in_transaction() {
                (self, None)
            } else {
                (
                    StoreState {
                        rows: self.rows,
                        last_id: self.last_id,
                        last_rowid: self.last_rowid,
                        saved: Some((self.rows, self.last_id)),
                    },
                    Some(no_rows()),
                )
            },
            Statement::Commit => if self.in_transaction() {
                (
                    StoreState {
                        rows: self.rows,
                        last_id: self.last_id,
                        last_rowid: self.last_rowid,
                        saved: None,
                    },
                    Some(no_rows()),
                )
            } else {
                (self, None)
            },
            Statement::Rollback => match self.saved {
                Some((rows, last_id)) => (
                    StoreState { rows, last_id, last_rowid: self.last_rowid, saved: None },
                    Some(no_rows()),
                ),
                None => (self, None),
            },
            Statement::Insert { title } => if self.last_id >= MAX_ID {
                (self, None)
            } else {
                let id = (self.last_id + 1) as u64;
                (
                    StoreState {
                        rows: self.rows.push(TodoView { id, title: title@, completed: false }),
                        last_id: id,
                        last_rowid: id,
                        saved: self.saved,
                    },
                    Some(no_rows()),
                )
            },
            Statement::LastInsertId => (self, Some(id_rows(seq![self.last_rowid]))),
            Statement::SelectAll => (self, Some(todo_rows(self.rows))),
            Statement::SelectById { id } => match index_of(self.rows, id) {
                Some(i) => (self, Some(todo_rows(seq![self.rows[i]]))),
                None => (self, Some(todo_rows(seq![]))),
            },
            Statement::Update { id, changes } => if changes.spec_is_empty() {
                (self, None)
            } else {
                match index_of(self.rows, id) {
                    Some(i) => (
                        StoreState {
                            rows: self.rows.update(i, changed(self.rows[i], changes)),
                            last_id: self.last_id,
                            last_rowid: self.last_rowid,
                            saved: self.saved,
                        },
                        Some(no_rows()),
                    ),
                    None => (self, Some(no_rows())),
                }
            },
            Statement::Delete { id } => match index_of(self.rows, id) {
                Some(i) => (
                    StoreState {
                        rows: self.rows.remove(i),
                        last_id: self.last_id,
                        last_rowid: self.last_rowid,
                        saved: self.saved,
                    },
                    Some(id_rows(seq![id])),
                ),
                None => (self, Some(id_rows(seq![]))),
            },
        }
    }
}

/// Every statement leaves the engine in a state that it can be in.
pub proof fn lemma_run_wf(store: StoreState, statement: Statement)
    requires
        store.wf(),
    ensures
        store.run(statement).0.wf(),
{
    match statement {
        Statement::Update { id, changes } => {
            lemma_index(store.rows, id, 0);
        },
        Statement::Delete { id } => {
            lemma_index(store.rows, id, 0);
        },
        _ => {},
    }
}

/// The rows that an event carries; none for a fault.
pub open spec fn reply(event: Event) -> Option<RowsView> {
    match event {
        Event::Rows(rows) => Some(rows@),
        _ => None,
    }
}

/// The storage engine: the table, the id counter and the open transaction.
pub struct TodoStore {
    rows: Vec<Todo>,
    last_id: u64,
    last_rowid: u64,
    in_transaction: bool,
    saved_rows: Vec<Todo>,
    saved_last_id: u64,
}

/// Copies a list of todos.
fn copy_todos(todos: &Vec<Todo>) -> (copy: Vec<Todo>)
    ensures
        copy@ == todos@,
{
    let mut copy: Vec<Todo> = Vec::new();
    let mut i: usize = 0;
    while i < todos.len()
        invariant
            i <= todos.len(),
            copy@ == todos@.take(i as int),
        decreases todos.len() - i,
    {
        copy.push(todos[i].clone());
        i += 1;
    }
    copy
}

/// The row that holds a single id.
fn id_row(id: u64) -> (row: RowResult)
    requires
        id <= MAX_ID,
    ensures
        value_views(row.values@) == seq![ValueView::Integer(id as i64)],
{
    let mut values: Vec<Value> = Vec::new();
    values.push(Value::Integer(id as i64));
    RowResult { values }
}

/// The row that holds a record.
fn todo_values(todo: &Todo) -> (row: RowResult)
    requires
        todo.id <= MAX_ID,
    ensures
        value_views(row.values@) == todo_row(todo@),
{
    let mut values: Vec<Value> = Vec::new();
    values.push(Value::Integer(todo.id as i64));
    values.push(Value::Text(todo.title.clone()));
    values.push(Value::Integer(if todo.completed { 1 } else { 0 }));
    RowResult { values }
}

/// A result with the single column `id` and these rows.
fn id_result(rows: Vec<RowResult>, Ghost(ids): Ghost<Seq<u64>>) -> (result: QueryResult)
    requires
        row_views(rows@) == ids.map_values(
            |id: u64| seq![ValueView::Integer(id as i64)],
        ),
    ensures
        result@ == id_rows(ids),
{
    let mut columns: Vec<String> = Vec::new();
    columns.push(String::from_str("id"));
    let result = QueryResult { columns, rows };
    proof {
        assert(result@.columns =~= seq!["id"@]);
    }
    result
}

/// A result with the table's columns and these rows.
fn todo_result(rows: Vec<RowResult>, Ghost(todos): Ghost<Seq<TodoView>>) -> (result: QueryResult)
    requires
        row_views(rows@) == todos.map_values(
            |t: TodoView| todo_row(t),
        ),
    ensures
        result@ == todo_rows(todos),
{
    let mut columns: Vec<String> = Vec::new();
    columns.push(String::from_str("id"));
    columns.push(String::from_str("title"));
    columns.push(String::from_str("completed"));
    let result = QueryResult { columns, rows };
    proof {
        assert(result@.columns =~= todo_columns());
    }
    result
}

impl View for TodoStore {
    type V = StoreState;

    closed spec fn view(&self) -> StoreState {
        StoreState {
            rows: views(self.rows@),
            last_id: self.last_id,
            last_rowid: self.last_rowid,
            saved: if self.in_transaction {
                Some((views(self.saved_rows@), self.saved_last_id))
            } else {
                None
            },
        }
    }
}

impl TodoStore {
    /// The engine holds a state that it can be in.
    pub open spec fn wf(&self) -> bool {
        self@.wf()
    }

    /// An engine with an empty table, before any insert and outside of any
    /// transaction.
    pub fn new() -> (store: TodoStore)
        ensures
            store.wf(),
            store@ == (StoreState { rows: seq![], last_id: 0, last_rowid: 0, saved: None }),
    {
        let store = TodoStore {
            rows: Vec::new(),
            last_id: 0,
            last_rowid: 0,
            in_transaction: false,
            saved_rows: Vec::new(),
            saved_last_id: 0,
        };
        proof {
            assert(store@.rows =~= seq![]);
        }
        store
    }

    /// Finds the record with this id.
    fn find_index(&self, id: u64) -> (found: Option<usize>)
        ensures
            match found {
                Some(i) => index_of(self@.rows, id) == Some(i as int) && i < self.rows@.len(),
                None => index_of(self@.rows, id) is None,
            },
    {
        let mut i: usize = 0;
        while i < self.rows.len()
            invariant
                i <= self.rows@.len(),
                self@.rows.len() == self.rows@.len(),
                forall|k: int| 0 <= k < self.rows@.len() ==> self@.rows[k] == self.rows@[k]@,
                index_of(self@.rows, id) == index_from(self@.rows, id, i as int),
            decreases self.rows@.len() - i,
        {
            if self.rows[i].id == id {
                return Some(i);
            }
            i += 1;
        }
        None
    }

    /// Executes a statement. What comes back is never [`Event::Start`]: the
    /// rows that the statement produced, or [`Event::Fault`] where the
    /// engine refuses it.
    pub fn execute(&mut self, statement: &Statement) -> (event: Event)
        requires
            old(self).wf(),
        ensures
            final(self).wf(),
            event !is Start,
            (final(self)@, reply(event)) == old(self)@.run(*statement),
    {
        proof {
            lemma_run_wf(self@, *statement);
        }
        match statement {
            Statement::Begin => {
                if self.in_transaction {
                    return Event::Fault;
                }
                self.saved_rows = copy_todos(&self.rows);
                self.saved_last_id = self.last_id;
                self.in_transaction = true;
                Event::Rows(QueryResult::empty())
            },
            Statement::Commit => {
                if !self.in_transaction {
                    return Event::Fault;
                }
                self.in_transaction = false;
                Event::Rows(QueryResult::empty())
            },
            Statement::Rollback => {
                if !self.in_transaction {
                    return Event::Fault;
                }
                self.rows = copy_todos(&self.saved_rows);
                self.last_id = self.saved_last_id;
                self.in_transaction = false;
                Event::Rows(QueryResult::empty())
            },
            Statement::Insert { title } => {
                if self.last_id >= MAX_ID {
                    return Event::Fault;
                }
                let id = self.last_id + 1;
                self.rows.push(Todo { id, title: title.clone(), completed: false });
                self.last_id = id;
                self.last_rowid = id;
                proof {
                    assert(self@.rows =~= old(self)@.rows.push(
                        TodoView { id, title: title@, completed: false },
                    ));
                }
                Event::Rows(QueryResult::empty())
            },
            Statement::LastInsertId => {
                let mut rows: Vec<RowResult> = Vec::new();
                rows.push(id_row(self.last_rowid));
                let ghost ids = seq![self.last_rowid];
                proof {
                    assert(row_views(rows@)
                        =~= ids.map_values(|id: u64| seq![ValueView::Integer(id as i64)]));
                }
                Event::Rows(id_result(rows, Ghost(ids)))
            },
            Statement::SelectAll => {
                let mut rows: Vec<RowResult> = Vec::new();
                let mut i: usize = 0;
                while i < self.rows.len()
                    invariant
                        i <= self.rows@.len(),
                        self.wf(),
                        self@.rows.len() == self.rows@.len(),
                        row_views(rows@)
                            == self@.rows.take(i as int).map_values(|t: TodoView| todo_row(t)),
                    decreases self.rows@.len() - i,
                {
                    assert(self@.rows[i as int] == self.rows@[i as int]@);
                    let ghost listed = rows@;
                    rows.push(todo_values(&self.rows[i]));
                    proof {
                        assert(self@.rows.take(i + 1) =~= self@.rows.take(i as int).push(
                            self@.rows[i as int],
                        ));
                        assert(row_views(rows@) =~= row_views(listed).push(todo_row(self@.rows[i as int])));
                    }
                    i += 1;
                }
                proof {
                    assert(self@.rows.take(self.rows@.len() as int) =~= self@.rows);
                }
                Event::Rows(todo_result(rows, Ghost(self@.rows)))
            },
            Statement::SelectById { id } => {
                let mut rows: Vec<RowResult> = Vec::new();
                match self.find_index(*id) {
                    Some(i) => {
                        rows.push(todo_values(&self.rows[i]));
                        let ghost todos = seq![self@.rows[i as int]];
                        proof {
                            assert(row_views(rows@) =~= todos.map_values(|t: TodoView| todo_row(t)));
                        }
                        Event::Rows(todo_result(rows, Ghost(todos)))
                    },
                    None => {
                        let ghost todos = Seq::<TodoView>::empty();
                        proof {
                            assert(row_views(rows@) =~= todos.map_values(|t: TodoView| todo_row(t)));
                        }
                        Event::Rows(todo_result(rows, Ghost(todos)))
                    },
                }
            },
            Statement::Update { id, changes } => {
                if changes.is_empty() {
                    return Event::Fault;
                }
                match self.find_index(*id) {
                    Some(i) => {
                        let title = match &changes.title {
                            Some(title) => title.clone(),
                            None => self.rows[i].title.clone(),
                        };
                        let completed = match changes.completed {
                            Some(completed) => completed,
                            None => self.rows[i].completed,
                        };
                        let todo = Todo { id: self.rows[i].id, title, completed };
                        self.rows.set(i, todo);
                        proof {
                            assert(self@.rows =~= old(self)@.rows.update(
                                i as int,
                                changed(old(self)@.rows[i as int], *changes),
                            ));
                        }
                    },
                    None => {},
                }
                Event::Rows(QueryResult::empty())
            },
            Statement::Delete { id } => {
                let mut rows: Vec<RowResult> = Vec::new();
                match self.find_index(*id) {
                    Some(i) => {
                        proof {
                            lemma_index(self@.rows, *id, 0);
                        }
                        self.rows.remove(i);
                        rows.push(id_row(*id));
                        let ghost ids = seq![*id];
                        proof {
                            assert(self@.rows =~= old(self)@.rows.remove(i as int));
                            assert(row_views(rows@) =~= ids.map_values(|id: u64| seq![ValueView::Integer(id as i64)]));
                        }
                        Event::Rows(id_result(rows, Ghost(ids)))
                    },
                    None => {
                        let ghost ids = Seq::<u64>::empty();
                        proof {
                            assert(row_views(rows@) =~= ids.map_values(|id: u64| seq![ValueView::Integer(id as i64)]));
                        }
                        Event::Rows(id_result(rows, Ghost(ids)))
                    },
                }
            },
        }
    }
}

} // verus!
