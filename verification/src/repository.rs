//! The repository on the in-memory engine: each operation is run to its end
//! against a [`TodoStore`], and what it returns and leaves behind is stated
//! over the table as a mathematical value.

use vstd::prelude::*;
use crate::commands::{create_todo, delete_todo, update_todo};
use crate::error::{DecodeError, TodoError};
use crate::models::{views, Todo, TodoView};
use crate::protocol::{all_decode, all_todos, first_id, first_todo, outcome, row_at, Event, Stage, Step};
use crate::queries::{find_todo, load_todos};
use crate::request::{CreateTodo, UpdateTodo};
use crate::sqlite::{position_from, value_views, QueryResult, ValueView};
use crate::store::{changed, id_rows, index_from, index_of, lemma_index, record, reply, todo_row, todo_rows, StoreState, TodoStore, MAX_ID};

verus! {

impl StoreState {
    /// The state in which a transaction has just been opened.
    pub open spec fn opened(self) -> StoreState {
        StoreState {
            rows: self.rows,
            last_id: self.last_id,
            last_rowid: self.last_rowid,
            saved: Some((self.rows, self.last_id)),
        }
    }

    /// The record that the next insert adds.
    pub open spec fn next_todo(self, title: Seq<char>) -> TodoView {
        TodoView { id: (self.last_id + 1) as u64, title, completed: false }
    }

    /// The state with one more record, titled `title`.
    pub open spec fn with_new(self, title: Seq<char>) -> StoreState {
        StoreState {
            rows: self.rows.push(self.next_todo(title)),
            last_id: (self.last_id + 1) as u64,
            last_rowid: (self.last_id + 1) as u64,
            saved: self.saved,
        }
    }

    /// The state in which the record `id`, if there is one, has the fields
    /// of `changes`.
    pub open spec fn with_changes(self, id: u64, changes: UpdateTodo) -> StoreState {
        match index_of(self.rows, id) {
            Some(i) => StoreState {
                rows: self.rows.update(i, changed(self.rows[i], changes)),
                last_id: self.last_id,
                last_rowid: self.last_rowid,
                saved: self.saved,
            },
            None => self,
        }
    }

    /// Creating a todo: the new record is not done and gets the id after
    /// the highest given so far. Inside a transaction, or once the ids are
    /// used up, the engine refuses and the table stays as it is.
    pub open spec fn create(self, title: Seq<char>) -> (StoreState, Result<TodoView, TodoError>) {
        if self.in_transaction() || self.last_id >= MAX_ID {
            (self, Err(TodoError::StorageFault))
        } else {
            (self.with_new(title), Ok(self.next_todo(title)))
        }
    }

    /// Finding a todo by its id.
    pub open spec fn find(self, id: u64) -> Result<TodoView, TodoError> {
        match record(self.rows, id) {
            Some(todo) => Ok(todo),
            None => Err(TodoError::NotFound),
        }
    }

    /// Updating a todo: an update that names no field is refused whatever
    /// the id; otherwise the record `id` takes the named fields and is
    /// returned as it now is.
    pub open spec fn update(self, id: u64, changes: UpdateTodo) -> (
        StoreState,
        Result<TodoView, TodoError>,
    ) {
        if changes.spec_is_empty() {
            (self, Err(TodoError::Validation))
        } else if self.in_transaction() {
            (self, Err(TodoError::StorageFault))
        } else {
            match record(self.rows, id) {
                Some(todo) => (self.with_changes(id, changes), Ok(changed(todo, changes))),
                None => (self, Err(TodoError::NotFound)),
            }
        }
    }

    /// Deleting a todo: the record `id` leaves the table.
    pub open spec fn delete(self, id: u64) -> (StoreState, Result<(), TodoError>) {
        match index_of(self.rows, id) {
            Some(i) => (
                StoreState {
                    rows: self.rows.remove(i),
                    last_id: self.last_id,
                    last_rowid: self.last_rowid,
                    saved: self.saved,
                },
                Ok(()),
            ),
            None => (self, Err(TodoError::NotFound)),
        }
    }
}

/// The three column names differ from one another.
proof fn lemma_column_names()
    ensures
        "id"@ != "title"@,
        "id"@ != "completed"@,
        "title"@ != "completed"@,
{
    reveal_strlit("id");
    reveal_strlit("title");
    reveal_strlit("completed");
    assert("title"@.len() == 5);
    assert("completed"@.len() == 9);
}

/// A reply that lists one id decodes to that id.
proof fn lemma_first_id(rows: QueryResult, id: u64)
    requires
        rows@ == id_rows(seq![id]),
        id <= MAX_ID,
    ensures
        first_id(rows) == Some(id),
{
    assert(rows@.columns.len() == 1);
    assert(rows@.columns[0] == "id"@);
    assert(rows@.rows.len() == 1);
    assert(rows@.rows[0] == seq![ValueView::Integer(id as i64)]);
    let values = rows.rows@[0].values@;
    assert(value_views(values)[0] == values[0]@);
}

/// A reply that lists records decodes, row by row, to these records.
proof fn lemma_decode(rows: QueryResult, todos: Seq<TodoView>, i: int)
    requires
        rows@ == todo_rows(todos),
        0 <= i < todos.len(),
        todos[i].id <= MAX_ID,
    ensures
        i < rows.rows@.len(),
        Todo::spec_from_row(row_at(rows, i)) == Ok::<TodoView, DecodeError>(todos[i]),
{
    lemma_column_names();
    let columns = rows.columns@;
    assert(rows@.columns.len() == 3);
    assert(position_from(columns, "title"@, 1) == Some(1int));
    assert(position_from(columns, "completed"@, 2) == Some(2int));
    assert(position_from(columns, "completed"@, 1) == Some(2int));
    assert(rows@.rows.len() == todos.len());
    assert(rows@.rows[i] == todo_row(todos[i]));
}

/// The first row of a reply that lists records is the first record.
proof fn lemma_first_todo(rows: QueryResult, todos: Seq<TodoView>)
    requires
        rows@ == todo_rows(todos),
        forall|i: int| 0 <= i < todos.len() ==> todos[i].id <= MAX_ID,
    ensures
        first_todo(rows) == (if todos.len() == 0 {
            Err::<TodoView, TodoError>(TodoError::NotFound)
        } else {
            Ok(todos[0])
        }),
{
    assert(rows@.rows.len() == todos.len());
    if todos.len() > 0 {
        lemma_decode(rows, todos, 0);
    }
}

/// Every row of a reply that lists records decodes.
proof fn lemma_all_todos(rows: QueryResult, todos: Seq<TodoView>)
    requires
        rows@ == todo_rows(todos),
        forall|i: int| 0 <= i < todos.len() ==> todos[i].id <= MAX_ID,
    ensures
        all_decode(rows),
        all_todos(rows) == todos,
{
    assert(rows@.rows.len() == todos.len());
    assert forall|i: int| 0 <= i < rows.rows@.len() implies (#[trigger] Todo::spec_from_row(
        row_at(rows, i),
    )) == Ok::<TodoView, DecodeError>(todos[i]) by {
        lemma_decode(rows, todos, i);
    }
}

/// An update keeps every record where it was.
proof fn lemma_index_after_update(rows: Seq<TodoView>, at: int, todo: TodoView, id: u64, from: int)
    requires
        0 <= at < rows.len(),
        todo.id == rows[at].id,
        0 <= from,
    ensures
        index_from(rows.update(at, todo), id, from) == index_from(rows, id, from),
    decreases rows.len() - from,
{
    if from < rows.len() {
        if rows[from].id != id {
            lemma_index_after_update(rows, at, todo, id, from + 1);
        }
    }
}

/// How far the creation of a todo has come on the engine.
pub open spec fn creating(
    before: StoreState,
    title: Seq<char>,
    stage: Stage,
    event: Event,
    now: StoreState,
) -> bool {
    match stage {
        Stage::Start => now == before,
        Stage::Opening => if before.in_transaction() {
            now == before && !(event is Rows)
        } else {
            now == before.opened() && event is Rows
        },
        Stage::Writing => !before.in_transaction() && if before.last_id >= MAX_ID {
            now == before.opened() && !(event is Rows)
        } else {
            now == before.opened().with_new(title) && event is Rows
        },
        Stage::Identifying => !before.in_transaction() && before.last_id < MAX_ID && now
            == before.opened().with_new(title) && (event matches Event::Rows(rows) && rows@
            == id_rows(seq![(before.last_id + 1) as u64])),
        Stage::Committing { id } => !before.in_transaction() && before.last_id < MAX_ID && id
            == before.last_id + 1 && now == before.with_new(title) && event is Rows,
        Stage::RollingBack => !before.in_transaction() && before.last_id >= MAX_ID && now == before
            && event is Rows,
        Stage::Reading => false,
    }
}

/// How far the update of a todo has come on the engine.
pub open spec fn updating(
    before: StoreState,
    id: u64,
    changes: UpdateTodo,
    stage: Stage,
    event: Event,
    now: StoreState,
) -> bool {
    &&& stage != Stage::Start ==> !changes.spec_is_empty()
    &&& match stage {
        Stage::Start => now == before,
        Stage::Opening => if before.in_transaction() {
            now == before && !(event is Rows)
        } else {
            now == before.opened() && event is Rows
        },
        Stage::Writing => !before.in_transaction() && now == before.opened().with_changes(
            id,
            changes,
        ) && event is Rows,
        Stage::Committing { id: _ } => !before.in_transaction() && now == before.with_changes(
            id,
            changes,
        ) && event is Rows,
        Stage::Reading => !before.in_transaction() && now == before.with_changes(id, changes) && (
        event matches Event::Rows(rows) && rows@ == todo_rows(
            match record(before.rows, id) {
                Some(todo) => seq![changed(todo, changes)],
                None => seq![],
            },
        )),
        Stage::Identifying => false,
        Stage::RollingBack => false,
    }
}

impl TodoStore {
    /// Creates a todo titled `new.title`.
    pub fn create(&mut self, new: &CreateTodo) -> (result: Result<Todo, TodoError>)
        requires
            old(self).wf(),
        ensures
            final(self).wf(),
            (final(self)@, outcome(result)) == old(self)@.create(new.title@),
    {
        let ghost before = self@;
        let mut stage = Stage::Start;
        let mut event = Event::Start;
        loop
            invariant
                self.wf(),
                before.wf(),
                before == old(self)@,
                creating(before, new.title@, stage, event, self@),
            decreases stage.remaining(),
        {
            proof {
                if event is Rows {
                    let rows = event->Rows_0;
                    if stage == Stage::Identifying {
                        lemma_first_id(rows, (before.last_id + 1) as u64);
                    }
                }
            }
            match create_todo(new, stage, event) {
                Step::Done(result) => {
                    return result;
                },
                Step::Execute { statement, next } => {
                    event = self.execute(&statement);
                    stage = next;
                },
            }
        }
    }

    /// Finds the todo `id`.
    pub fn find(&mut self, id: u64) -> (result: Result<Todo, TodoError>)
        requires
            old(self).wf(),
        ensures
            final(self)@ == old(self)@,
            outcome(result) == old(self)@.find(id),
    {
        let ghost before = self@;
        let mut stage = Stage::Start;
        let mut event = Event::Start;
        loop
            invariant
                self.wf(),
                before == old(self)@,
                self@ == before,
                stage == Stage::Start || (stage == Stage::Reading && (event matches Event::Rows(
                    rows,
                ) && rows@ == todo_rows(
                    match record(before.rows, id) {
                        Some(todo) => seq![todo],
                        None => seq![],
                    },
                ))),
            decreases stage.remaining(),
        {
            proof {
                if event is Rows {
                    let rows = event->Rows_0;
                    if stage == Stage::Reading {
                        lemma_index(before.rows, id, 0);
                        lemma_first_todo(
                            rows,
                            match record(before.rows, id) {
                                Some(todo) => seq![todo],
                                None => seq![],
                            },
                        );
                    }
                }
            }
            match find_todo(id, stage, event) {
                Step::Done(result) => {
                    return result;
                },
                Step::Execute { statement, next } => {
                    event = self.execute(&statement);
                    stage = next;
                },
            }
        }
    }

    /// Sets the fields that `changes` names on the todo `id`.
    pub fn update(&mut self, id: u64, changes: &UpdateTodo) -> (result: Result<Todo, TodoError>)
        requires
            old(self).wf(),
        ensures
            final(self).wf(),
            (final(self)@, outcome(result)) == old(self)@.update(id, *changes),
    {
        let ghost before = self@;
        let mut stage = Stage::Start;
        let mut event = Event::Start;
        loop
            invariant
                self.wf(),
                before.wf(),
                before == old(self)@,
                updating(before, id, *changes, stage, event, self@),
            decreases stage.remaining(),
        {
            proof {
                lemma_index(before.rows, id, 0);
                if let Some(at) = index_of(before.rows, id) {
                    lemma_index_after_update(
                        before.rows,
                        at,
                        changed(before.rows[at], *changes),
                        id,
                        0,
                    );
                }
                if event is Rows {
                    let rows = event->Rows_0;
                    if stage == Stage::Reading && !changes.spec_is_empty() {
                        lemma_first_todo(
                            rows,
                            match record(before.rows, id) {
                                Some(todo) => seq![changed(todo, *changes)],
                                None => seq![],
                            },
                        );
                    }
                }
            }
            match update_todo(id, changes, stage, event) {
                Step::Done(result) => {
                    return result;
                },
                Step::Execute { statement, next } => {
                    event = self.execute(&statement);
                    stage = next;
                },
            }
        }
    }

    /// Removes the todo `id`.
    pub fn delete(&mut self, id: u64) -> (result: Result<(), TodoError>)
        requires
            old(self).wf(),
        ensures
            final(self).wf(),
            (final(self)@, result) == old(self)@.delete(id),
    {
        let ghost before = self@;
        let mut stage = Stage::Start;
        let mut event = Event::Start;
        loop
            invariant
                self.wf(),
                before == old(self)@,
                (stage == Stage::Start && self@ == before) || (stage == Stage::Writing && self@
                    == before.delete(id).0 && (event matches Event::Rows(rows) && rows@ == id_rows(
                    if index_of(before.rows, id) is Some {
                        seq![id]
                    } else {
                        seq![]
                    },
                ))),
            decreases stage.remaining(),
        {
            proof {
                if event is Rows {
                    let rows = event->Rows_0;
                    assert(rows@.rows.len() == rows.rows@.len());
                }
            }
            match delete_todo(id, stage, event) {
                Step::Done(result) => {
                    return result;
                },
                Step::Execute { statement, next } => {
                    event = self.execute(&statement);
                    stage = next;
                },
            }
        }
    }

    /// Lists the todos in the order of the table.
    pub fn list(&mut self) -> (result: Result<Vec<Todo>, TodoError>)
        requires
            old(self).wf(),
        ensures
            final(self)@ == old(self)@,
            result matches Ok(todos) && views(todos@) == old(self)@.rows,
    {
        let ghost before = self@;
        let mut stage = Stage::Start;
        let mut event = Event::Start;
        loop
            invariant
                self.wf(),
                before == old(self)@,
                self@ == before,
                stage == Stage::Start || (stage == Stage::Reading && (event matches Event::Rows(
                    rows,
                ) && rows@ == todo_rows(before.rows))),
            decreases stage.remaining(),
        {
            proof {
                if event is Rows {
                    let rows = event->Rows_0;
                    if stage == Stage::Reading {
                        lemma_all_todos(rows, before.rows);
                    }
                }
            }
            match load_todos(stage, event) {
                Step::Done(result) => {
                    return result;
                },
                Step::Execute { statement, next } => {
                    event = self.execute(&statement);
                    stage = next;
                },
            }
        }
    }
}

} // verus!
