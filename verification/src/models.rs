//! The todo record and its decoding from a result row.

use vstd::prelude::*;
use crate::error::{Column, DecodeError};
use crate::sqlite::Row;

verus! {

/// A todo as it is stored: the id that the storage engine gave it, its title
/// and whether it is done.
#[derive(Debug, PartialEq, Eq)]
pub struct Todo {
    pub id: u64,
    pub title: String,
    pub completed: bool,
}

/// A todo as a mathematical value.
pub struct TodoView {
    pub id: u64,
    pub title: Seq<char>,
    pub completed: bool,
}

impl View for Todo {
    type V = TodoView;

    open spec fn view(&self) -> TodoView {
        TodoView { id: self.id, title: self.title@, completed: self.completed }
    }
}

impl Clone for Todo {
    fn clone(&self) -> (copy: Todo)
        ensures
            copy == *self,
    {
        Todo { id: self.id, title: self.title.clone(), completed: self.completed }
    }
}

/// The todos of a list as mathematical values.
pub open spec fn views(todos: Seq<Todo>) -> Seq<TodoView> {
    todos.map_values(|t: Todo| t@)
}

/// The todo in a decoding result as a mathematical value.
pub open spec fn decoded(result: Result<Todo, DecodeError>) -> Result<TodoView, DecodeError> {
    match result {
        Ok(todo) => Ok(todo@),
        Err(e) => Err(e),
    }
}

impl Todo {
    /// The todo that a row holds under the columns `id`, `title` and
    /// `completed`, or the first of these columns, in this order, that the
    /// row lacks or holds with a value of the wrong kind.
    pub open spec fn spec_from_row(row: Row) -> Result<TodoView, DecodeError> {
        match row.spec_get_u64(Column::Id.spec_name()) {
            None => Err(DecodeError { column: Column::Id }),
            Some(id) => match row.spec_get_text(Column::Title.spec_name()) {
                None => Err(DecodeError { column: Column::Title }),
                Some(title) => match row.spec_get_bool(Column::Completed.spec_name()) {
                    None => Err(DecodeError { column: Column::Completed }),
                    Some(completed) => Ok(TodoView { id, title, completed }),
                },
            },
        }
    }

    /// Decodes a row into a todo. The columns are found by name, so their
    /// order and any further columns do not matter.
    pub fn from_row(row: &Row) -> (result: Result<Todo, DecodeError>)
        ensures
            decoded(result) == Todo::spec_from_row(*row),
    {
        let id = match row.get_u64(Column::Id.name()) {
            Some(id) => id,
            None => return Err(DecodeError { column: Column::Id }),
        };
        let title = match row.get_text(Column::Title.name()) {
            Some(title) => title,
            None => return Err(DecodeError { column: Column::Title }),
        };
        let completed = match row.get_bool(Column::Completed.name()) {
            Some(completed) => completed,
            None => return Err(DecodeError { column: Column::Completed }),
        };
        Ok(Todo { id, title, completed })
    }
}

} // verus!
