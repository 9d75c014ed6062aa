//! The shapes of the request bodies.

use vstd::prelude::*;

verus! {

/// The body of a request that creates a todo.
#[derive(Debug, PartialEq, Eq)]
pub struct CreateTodo {
    pub title: String,
}

impl Clone for CreateTodo {
    fn clone(&self) -> (copy: CreateTodo)
        ensures
            copy == *self,
    {
        CreateTodo { title: self.title.clone() }
    }
}

/// The body of a request that changes a todo. A field that is absent leaves
/// the record's field as it is.
#[derive(Debug, PartialEq, Eq)]
pub struct UpdateTodo {
    pub title: Option<String>,
    pub completed: Option<bool>,
}

impl Clone for UpdateTodo {
    fn clone(&self) -> (copy: UpdateTodo)
        ensures
            copy == *self,
    {
        let title = match &self.title {
            Some(title) => Some(title.clone()),
            None => None,
        };
        UpdateTodo { title, completed: self.completed }
    }
}

impl UpdateTodo {
    /// Whether the update names no field at all.
    pub open spec fn spec_is_empty(&self) -> bool {
        self.title is None && self.completed is None
    }

    /// Whether the update names no field at all.
    #[verifier::when_used_as_spec(spec_is_empty)]
    pub fn is_empty(&self) -> (empty: bool)
        ensures
            empty == self.spec_is_empty(),
    {
        self.title.is_none() && self.completed.is_none()
    }
}

} // verus!
