//! How a repository operation and its host talk to each other. The
//! operation is a function from a stage and an event to a step: either a
//! statement for the host to execute, with the stage to come back to, or
//! the operation's result. The host starts with [`Stage::Start`] and
//! [`Event::Start`], executes what it is handed and returns with the
//! engine's reply until the operation is done.

use vstd::prelude::*;
use crate::error::TodoError;
use crate::models::{Todo, TodoView};
use crate::sqlite::{QueryResult, Row};
use crate::statement::Statement;

verus! {

/// What the host reports to an operation.
#[derive(Debug, PartialEq, Eq)]
pub enum Event {
    /// The operation begins: no statement has been executed for it.
    Start,
    /// The engine executed the statement and produced these rows.
    Rows(QueryResult),
    /// The engine could not be reached or refused the statement.
    Fault,
}

/// How far an operation has come: which statement was sent last.
#[derive(Clone, Copy, Debug, PartialEq, Eq, Structural)]
pub enum Stage {
    /// Nothing has been sent.
    Start,
    /// The transaction is being opened.
    Opening,
    /// The statement that changes the table is running.
    Writing,
    /// The id of the inserted row is being asked for.
    Identifying,
    /// The transaction is being committed, for the record with this id.
    Committing { id: u64 },
    /// The statement whose rows are the result is running.
    Reading,
    /// The transaction is being rolled back after a failure.
    RollingBack,
}

impl Stage {
    /// An upper bound on the statements that an operation still sends once
    /// the statement of this stage has been answered.
    pub open spec fn remaining(self) -> nat {
        match self {
            Stage::Start => 5,
            Stage::Opening => 4,
            Stage::Writing => 3,
            Stage::Identifying => 2,
            Stage::Committing { id } => 1,
            Stage::Reading => 0,
            Stage::RollingBack => 0,
        }
    }
}

/// What an operation asks of its host.
#[derive(Debug, PartialEq, Eq)]
pub enum Step<T> {
    /// Execute the statement and come back at `next` with the reply.
    Execute { statement: Statement, next: Stage },
    /// The operation is over, with this result.
    Done(Result<T, TodoError>),
}

impl<T> Step<T> {
    /// Whether the step brings the operation nearer to its end, with a
    /// statement that the engine can run: no operation sends more than five
    /// statements.
    pub open spec fn advances(self, stage: Stage) -> bool {
        self matches Step::Execute { statement, next } ==> next.remaining() < stage.remaining()
            && statement.well_formed()
    }
}

/// The step that sends `statement` and comes back at `next`.
pub open spec fn sends<T>(step: Step<T>, statement: Statement, next: Stage) -> bool {
    step == Step::<T>::Execute { statement, next }
}

/// The step that ends the operation with `error`.
pub open spec fn fails<T>(step: Step<T>, error: TodoError) -> bool {
    step == Step::<T>::Done(Err(error))
}

/// The row of `result` at `index`, with the result's column names.
pub open spec fn row_at(result: QueryResult, index: int) -> Row<'static> {
    Row { columns: &result.columns, result: &result.rows@[index] }
}

/// The unsigned integer in the column `id` of the first row, if there is
/// such a row and it holds one.
pub open spec fn first_id(result: QueryResult) -> Option<u64> {
    if result.rows@.len() == 0 {
        None
    } else {
        row_at(result, 0).spec_get_u64("id"@)
    }
}

/// The todo in the first row: a result without rows means that no record
/// matched, a first row that does not decode is a fault.
pub open spec fn first_todo(result: QueryResult) -> Result<TodoView, TodoError> {
    if result.rows@.len() == 0 {
        Err(TodoError::NotFound)
    } else {
        match Todo::spec_from_row(row_at(result, 0)) {
            Ok(todo) => Ok(todo),
            Err(_) => Err(TodoError::StorageFault),
        }
    }
}

/// Whether every row of the result decodes into a todo.
pub open spec fn all_decode(result: QueryResult) -> bool {
    forall|i: int|
        0 <= i < result.rows@.len() ==> (#[trigger] Todo::spec_from_row(row_at(result, i))) is Ok
}

/// The todos that the rows of the result decode into, in the rows' order.
pub open spec fn all_todos(result: QueryResult) -> Seq<TodoView> {
    Seq::new(result.rows@.len(), |i: int| Todo::spec_from_row(row_at(result, i))->Ok_0)
}

/// The todo of a result as a mathematical value.
pub open spec fn outcome(result: Result<Todo, TodoError>) -> Result<TodoView, TodoError> {
    match result {
        Ok(todo) => Ok(todo@),
        Err(e) => Err(e),
    }
}

/// Reads the id in the column `id` of the first row.
pub fn read_first_id(result: &QueryResult) -> (id: Option<u64>)
    ensures
        id == first_id(*result),
{
    match result.row(0) {
        Some(row) => row.get_u64("id"),
        None => None,
    }
}

/// Reads the todo in the first row.
pub fn read_first_todo(result: &QueryResult) -> (todo: Result<Todo, TodoError>)
    ensures
        outcome(todo) == first_todo(*result),
{
    match result.row(0) {
        Some(row) => match Todo::from_row(&row) {
            Ok(todo) => Ok(todo),
            Err(_) => Err(TodoError::StorageFault),
        },
        None => Err(TodoError::NotFound),
    }
}

} // verus!
