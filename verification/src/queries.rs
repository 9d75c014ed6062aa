//! The operations that read the table: list all todos, find one by id.

use vstd::prelude::*;
use crate::error::{DecodeError, TodoError};
use crate::models::{views, Todo};
use crate::protocol::{all_decode, all_todos, fails, first_todo, outcome, read_first_todo, row_at, sends, Event, Stage, Step};
use crate::sqlite::QueryResult;
use crate::statement::Statement;

verus! {

/// The step of `load_todos` at `stage` on `event`.
///
/// The todos come in the order in which the engine lists the rows. No row
/// at all is an empty list and no error; a row that does not decode is a
/// fault.
pub open spec fn load_todos_step(stage: Stage, event: Event, step: Step<Vec<Todo>>) -> bool {
    match stage {
        Stage::Start => sends(step, Statement::SelectAll, Stage::Reading),
        Stage::Reading => match event {
            Event::Rows(rows) => if all_decode(rows) {
                step matches Step::Done(Ok(todos)) && views(todos@) == all_todos(rows)
            } else {
                fails(step, TodoError::StorageFault)
            },
            _ => fails(step, TodoError::StorageFault),
        },
        _ => fails(step, TodoError::StorageFault),
    }
}

/// Decodes every row of a result, or stops at the first that does not
/// decode.
pub fn read_todos(rows: &QueryResult) -> (todos: Option<Vec<Todo>>)
    ensures
        match todos {
            Some(list) => all_decode(*rows) && views(list@) == all_todos(*rows),
            None => !all_decode(*rows),
        },
{
    let mut list: Vec<Todo> = Vec::new();
    let mut i: usize = 0;
    while i < rows.rows.len()
        invariant
            i <= rows.rows@.len(),
            list@.len() == i,
            forall|k: int|
                0 <= k < i ==> Todo::spec_from_row(row_at(*rows, k)) == Ok::<_, DecodeError>(
                    (#[trigger] list@[k])@,
                ),
        decreases rows.rows@.len() - i,
    {
        let row = match rows.row(i) {
            Some(row) => row,
            None => return None,
        };
        match Todo::from_row(&row) {
            Ok(todo) => list.push(todo),
            Err(_) => {
                assert(!(Todo::spec_from_row(row_at(*rows, i as int)) is Ok));
                return None;
            },
        }
        i += 1;
    }
    proof {
        assert forall|k: int| 0 <= k < rows.rows@.len() implies (#[trigger] Todo::spec_from_row(
            row_at(*rows, k),
        )) is Ok by {
            assert(Todo::spec_from_row(row_at(*rows, k)) == Ok::<_, DecodeError>(list@[k]@));
        }
    }
    Some(list)
}

/// Advances the listing of all todos by one step.
pub fn load_todos(stage: Stage, event: Event) -> (step: Step<Vec<Todo>>)
    ensures
        load_todos_step(stage, event, step),
        step.advances(stage),
{
    match stage {
        Stage::Start => Step::Execute { statement: Statement::SelectAll, next: Stage::Reading },
        Stage::Reading => match event {
            Event::Rows(rows) => match read_todos(&rows) {
                Some(todos) => Step::Done(Ok(todos)),
                None => Step::Done(Err(TodoError::StorageFault)),
            },
            _ => Step::Done(Err(TodoError::StorageFault)),
        },
        _ => Step::Done(Err(TodoError::StorageFault)),
    }
}

/// The step of `find_todo` at `stage` on `event`.
///
/// The result is the todo in the first row of the reply, or `NotFound`
/// where the reply has no row.
pub open spec fn find_todo_step(id: u64, stage: Stage, event: Event, step: Step<Todo>) -> bool {
    match stage {
        Stage::Start => sends(step, Statement::SelectById { id }, Stage::Reading),
        Stage::Reading => match event {
            Event::Rows(rows) => step matches Step::Done(result) && outcome(result) == first_todo(
                rows,
            ),
            _ => fails(step, TodoError::StorageFault),
        },
        _ => fails(step, TodoError::StorageFault),
    }
}

/// Advances the search for the todo `id` by one step.
pub fn find_todo(id: u64, stage: Stage, event: Event) -> (step: Step<Todo>)
    ensures
        find_todo_step(id, stage, event, step),
        step.advances(stage),
{
    match stage {
        Stage::Start => Step::Execute {
            statement: Statement::SelectById { id },
            next: Stage::Reading,
        },
        Stage::Reading => match event {
            Event::Rows(rows) => Step::Done(read_first_todo(&rows)),
            _ => Step::Done(Err(TodoError::StorageFault)),
        },
        _ => Step::Done(Err(TodoError::StorageFault)),
    }
}

} // verus!
