//! The ways in which serving a request can fail.

use vstd::prelude::*;

verus! {

/// Why an operation did not produce its result.
#[derive(Clone, Copy, Debug, PartialEq, Eq, Structural)]
pub enum TodoError {
    /// No record has the requested id.
    NotFound,
    /// The input is malformed: an id that is no number, a body that does not
    /// have the expected shape, an update that names no field.
    Validation,
    /// The storage engine reported a failure, or answered with rows that do
    /// not decode.
    StorageFault,
    /// The inference service reported a failure.
    UpstreamFault,
}

impl TodoError {
    /// The HTTP status that reports this error.
    pub open spec fn spec_status(self) -> u16 {
        match self {
            TodoError::NotFound => 404,
            TodoError::Validation => 400,
            TodoError::StorageFault => 500,
            TodoError::UpstreamFault => 500,
        }
    }

    /// The HTTP status that reports this error: 404 for a missing record,
    /// 400 for malformed input, 500 for every fault.
    #[verifier::when_used_as_spec(spec_status)]
    pub fn status(self) -> (code: u16)
        ensures
            code == self.spec_status(),
    {
        match self {
            TodoError::NotFound => 404,
            TodoError::Validation => 400,
            TodoError::StorageFault => 500,
            TodoError::UpstreamFault => 500,
        }
    }

    /// The text sent to the client with [`TodoError::status`]. Both faults
    /// share one text, so that nothing about the fault leaks.
    pub open spec fn spec_message(self) -> Seq<char> {
        match self {
            TodoError::NotFound => "Not Found"@,
            TodoError::Validation => "Bad Request"@,
            TodoError::StorageFault => "Unexpected Error"@,
            TodoError::UpstreamFault => "Unexpected Error"@,
        }
    }

    /// The text sent to the client with [`TodoError::status`].
    pub fn message(self) -> (text: &'static str)
        ensures
            text@ == self.spec_message(),
    {
        match self {
            TodoError::NotFound => "Not Found",
            TodoError::Validation => "Bad Request",
            TodoError::StorageFault => "Unexpected Error",
            TodoError::UpstreamFault => "Unexpected Error",
        }
    }
}

/// A column of the `todos` table.
#[derive(Clone, Copy, Debug, PartialEq, Eq, Structural)]
pub enum Column {
    Id,
    Title,
    Completed,
}

impl Column {
    /// The column's name in the table.
    pub open spec fn spec_name(self) -> Seq<char> {
        match self {
            Column::Id => "id"@,
            Column::Title => "title"@,
            Column::Completed => "completed"@,
        }
    }

    /// The column's name in the table.
    pub fn name(self) -> (name: &'static str)
        ensures
            name@ == self.spec_name(),
    {
        match self {
            Column::Id => "id",
            Column::Title => "title",
            Column::Completed => "completed",
        }
    }
}

/// A row could not be read as a todo: the named column is absent from the
/// row or holds a value of the wrong kind.
#[derive(Clone, Copy, Debug, PartialEq, Eq, Structural)]
pub struct DecodeError {
    pub column: Column,
}

} // verus!
