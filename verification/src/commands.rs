//! The operations that change the table: create, update and delete.
//!
//! Create and update send more than one statement and therefore run inside
//! a transaction, which is rolled back when a statement after BEGIN fails.

use vstd::prelude::*;
use crate::error::TodoError;
use crate::models::Todo;
use crate::protocol::{fails, first_id, first_todo, outcome, read_first_id, read_first_todo, sends, Event, Stage, Step};
use crate::request::{CreateTodo, UpdateTodo};
use crate::statement::Statement;

verus! {

/// The step of `create_todo` at `stage` on `event`.
///
/// The operation opens a transaction, inserts the row, asks for the id that
/// the row was given and commits. The record counts as created only if its
/// id can be reported: where the insert fails, or the id does not come
/// back, the transaction is rolled back and the operation fails.
pub open spec fn create_todo_step(
    new: CreateTodo,
    stage: Stage,
    event: Event,
    step: Step<Todo>,
) -> bool {
    match stage {
        Stage::Start => sends(step, Statement::Begin, Stage::Opening),
        Stage::Opening => match event {
            Event::Rows(_) => sends(step, Statement::Insert { title: new.title }, Stage::Writing),
            _ => fails(step, TodoError::StorageFault),
        },
        Stage::Writing => match event {
            Event::Rows(_) => sends(step, Statement::LastInsertId, Stage::Identifying),
            _ => sends(step, Statement::Rollback, Stage::RollingBack),
        },
        Stage::Identifying => match event {
            Event::Rows(rows) => match first_id(rows) {
                Some(id) => sends(step, Statement::Commit, Stage::Committing { id }),
                None => sends(step, Statement::Rollback, Stage::RollingBack),
            },
            _ => sends(step, Statement::Rollback, Stage::RollingBack),
        },
        Stage::Committing { id } => match event {
            Event::Rows(_) => step == Step::Done(
                Ok(Todo { id, title: new.title, completed: false }),
            ),
            _ => fails(step, TodoError::StorageFault),
        },
        _ => fails(step, TodoError::StorageFault),
    }
}

/// Advances the creation of a todo titled `new.title` by one step.
pub fn create_todo(new: &CreateTodo, stage: Stage, event: Event) -> (step: Step<Todo>)
    ensures
        create_todo_step(*new, stage, event, step),
        step.advances(stage),
{
    match stage {
        Stage::Start => Step::Execute { statement: Statement::Begin, next: Stage::Opening },
        Stage::Opening => match event {
            Event::Rows(_) => Step::Execute {
                statement: Statement::Insert { title: new.title.clone() },
                next: Stage::Writing,
            },
            _ => Step::Done(Err(TodoError::StorageFault)),
        },
        Stage::Writing => match event {
            Event::Rows(_) => Step::Execute {
                statement: Statement::LastInsertId,
                next: Stage::Identifying,
            },
            _ => Step::Execute { statement: Statement::Rollback, next: Stage::RollingBack },
        },
        Stage::Identifying => match event {
            Event::Rows(rows) => match read_first_id(&rows) {
                Some(id) => Step::Execute {
                    statement: Statement::Commit,
                    next: Stage::Committing { id },
                },
                None => Step::Execute { statement: Statement::Rollback, next: Stage::RollingBack },
            },
            _ => Step::Execute { statement: Statement::Rollback, next: Stage::RollingBack },
        },
        Stage::Committing { id } => match event {
            Event::Rows(_) => Step::Done(
                Ok(Todo { id, title: new.title.clone(), completed: false }),
            ),
            _ => Step::Done(Err(TodoError::StorageFault)),
        },
        _ => Step::Done(Err(TodoError::StorageFault)),
    }
}

/// The step of `update_todo` at `stage` on `event`.
///
/// An update that names no field is refused before anything is sent. The
/// others open a transaction, set the named fields, commit and read the
/// record again: the result is the record as it now is, or `NotFound` where
/// no row has the id. A failed UPDATE is rolled back.
pub open spec fn update_todo_step(
    id: u64,
    changes: UpdateTodo,
    stage: Stage,
    event: Event,
    step: Step<Todo>,
) -> bool {
    if changes.spec_is_empty() {
        fails(step, TodoError::Validation)
    } else {
        match stage {
            Stage::Start => sends(step, Statement::Begin, Stage::Opening),
            Stage::Opening => match event {
                Event::Rows(_) => sends(step, Statement::Update { id, changes }, Stage::Writing),
                _ => fails(step, TodoError::StorageFault),
            },
            Stage::Writing => match event {
                Event::Rows(_) => sends(step, Statement::Commit, Stage::Committing { id }),
                _ => sends(step, Statement::Rollback, Stage::RollingBack),
            },
            Stage::Committing { id: _ } => match event {
                Event::Rows(_) => sends(step, Statement::SelectById { id }, Stage::Reading),
                _ => fails(step, TodoError::StorageFault),
            },
            Stage::Reading => match event {
                Event::Rows(rows) => step matches Step::Done(result) && outcome(result)
                    == first_todo(rows),
                _ => fails(step, TodoError::StorageFault),
            },
            _ => fails(step, TodoError::StorageFault),
        }
    }
}

/// Advances the update of the todo `id` by one step.
pub fn update_todo(id: u64, changes: &UpdateTodo, stage: Stage, event: Event) -> (step: Step<Todo>)
    ensures
        update_todo_step(id, *changes, stage, event, step),
        step.advances(stage),
{
    if changes.is_empty() {
        return Step::Done(Err(TodoError::Validation));
    }
    match stage {
        Stage::Start => Step::Execute { statement: Statement::Begin, next: Stage::Opening },
        Stage::Opening => match event {
            Event::Rows(_) => Step::Execute {
                statement: Statement::Update { id, changes: changes.clone() },
                next: Stage::Writing,
            },
            _ => Step::Done(Err(TodoError::StorageFault)),
        },
        Stage::Writing => match event {
            Event::Rows(_) => Step::Execute {
                statement: Statement::Commit,
                next: Stage::Committing { id },
            },
            _ => Step::Execute { statement: Statement::Rollback, next: Stage::RollingBack },
        },
        Stage::Committing { .. } => match event {
            Event::Rows(_) => Step::Execute {
                statement: Statement::SelectById { id },
                next: Stage::Reading,
            },
            _ => Step::Done(Err(TodoError::StorageFault)),
        },
        Stage::Reading => match event {
            Event::Rows(rows) => Step::Done(read_first_todo(&rows)),
            _ => Step::Done(Err(TodoError::StorageFault)),
        },
        _ => Step::Done(Err(TodoError::StorageFault)),
    }
}

/// The step of `delete_todo` at `stage` on `event`.
///
/// The DELETE returns the id of each row it removed: no row in the reply
/// means that no record had the id.
pub open spec fn delete_todo_step(id: u64, stage: Stage, event: Event, step: Step<()>) -> bool {
    match stage {
        Stage::Start => sends(step, Statement::Delete { id }, Stage::Writing),
        Stage::Writing => match event {
            Event::Rows(rows) => if rows.rows@.len() > 0 {
                step == Step::Done(Ok(()))
            } else {
                fails(step, TodoError::NotFound)
            },
            _ => fails(step, TodoError::StorageFault),
        },
        _ => fails(step, TodoError::StorageFault),
    }
}

/// Advances the removal of the todo `id` by one step.
pub fn delete_todo(id: u64, stage: Stage, event: Event) -> (step: Step<()>)
    ensures
        delete_todo_step(id, stage, event, step),
        step.advances(stage),
{
    match stage {
        Stage::Start => Step::Execute { statement: Statement::Delete { id }, next: Stage::Writing },
        Stage::Writing => match event {
            Event::Rows(rows) => if rows.rows.len() > 0 {
                Step::Done(Ok(()))
            } else {
                Step::Done(Err(TodoError::NotFound))
            },
            _ => Step::Done(Err(TodoError::StorageFault)),
        },
        _ => Step::Done(Err(TodoError::StorageFault)),
    }
}

} // verus!
