//! The statements that the repository sends to the storage engine, each with
//! its SQL text and its parameters.

use vstd::prelude::*;
use crate::error::Column;
use crate::request::UpdateTodo;
use crate::sqlite::{value_views, Value, ValueView};

verus! {

/// A statement on the `todos` table, or one that opens or closes a
/// transaction.
#[derive(Debug, PartialEq, Eq)]
pub enum Statement {
    Begin,
    Commit,
    Rollback,
    /// Adds a todo that is not done; the engine picks its id.
    Insert { title: String },
    /// Asks for the id of the row that the connection inserted last.
    LastInsertId,
    SelectAll,
    SelectById { id: u64 },
    /// Sets the fields that `changes` names on the row with this id.
    Update { id: u64, changes: UpdateTodo },
    /// Removes the row with this id and returns the id if there was one.
    Delete { id: u64 },
}

/// The columns that an update sets, in the order of the table.
pub open spec fn assigned_columns(changes: UpdateTodo) -> Seq<Column> {
    let title = if changes.title is Some {
        seq![Column::Title]
    } else {
        seq![]
    };
    let completed = if changes.completed is Some {
        seq![Column::Completed]
    } else {
        seq![]
    };
    title + completed
}

/// The values that an update binds, in the order of `assigned_columns`.
pub open spec fn assigned_values(changes: UpdateTodo) -> Seq<ValueView> {
    let title = match changes.title {
        Some(t) => seq![ValueView::Text(t@)],
        None => seq![],
    };
    let completed = match changes.completed {
        Some(c) => seq![ValueView::Integer(if c { 1i64 } else { 0i64 })],
        None => seq![],
    };
    title + completed
}

/// The assignments of a SET clause: `column = ?` for each column, with `, `
/// between two of them.
pub open spec fn set_clause(columns: Seq<Column>) -> Seq<char>
    decreases columns.len(),
{
    if columns.len() == 0 {
        seq![]
    } else if columns.len() == 1 {
        columns[0].spec_name() + " = ?"@
    } else {
        set_clause(columns.drop_last()) + ", "@ + columns.last().spec_name() + " = ?"@
    }
}

/// An id as the engine takes it: SQLite integers are signed, so an id above
/// `i64::MAX` is bound as a negative number, which no row has.
pub open spec fn id_parameter(id: u64) -> ValueView {
    ValueView::Integer(id as i64)
}

/// The columns and values that an update sets: only the fields that the
/// request names, the title before the flag.
pub fn assignments(changes: &UpdateTodo) -> (pairs: Vec<(Column, Value)>)
    ensures
        pairs@.map_values(|p: (Column, Value)| p.0) == assigned_columns(*changes),
        pairs@.map_values(|p: (Column, Value)| p.1@) == assigned_values(*changes),
{
    let mut pairs: Vec<(Column, Value)> = Vec::new();
    if let Some(title) = &changes.title {
        pairs.push((Column::Title, Value::Text(title.clone())));
    }
    if let Some(completed) = changes.completed {
        pairs.push((Column::Completed, Value::Integer(if completed { 1 } else { 0 })));
    }
    pairs
}

/// Writes the SET clause for a list of assignments.
pub fn render_set_clause(pairs: &Vec<(Column, Value)>) -> (clause: String)
    ensures
        clause@ == set_clause(pairs@.map_values(|p: (Column, Value)| p.0)),
{
    let ghost columns = pairs@.map_values(|p: (Column, Value)| p.0);
    let mut clause = String::new();
    let mut i: usize = 0;
    while i < pairs.len()
        invariant
            i <= pairs.len(),
            columns == pairs@.map_values(|p: (Column, Value)| p.0),
            clause@ == set_clause(columns.take(i as int)),
        decreases pairs.len() - i,
    {
        if i > 0 {
            clause.append(", ");
        }
        clause.append(pairs[i].0.name());
        clause.append(" = ?");
        proof {
            let next = columns.take(i + 1);
            assert(next.drop_last() =~= columns.take(i as int));
            if i > 0 {
                assert(clause@ =~= set_clause(next.drop_last()) + ", "@ + next.last().spec_name()
                    + " = ?"@);
            }
        }
        i += 1;
    }
    proof {
        assert(columns.take(pairs.len() as int) =~= columns);
    }
    clause
}

impl Statement {
    /// Whether the statement is one that the engine can run: an update
    /// without assignments has no SQL form.
    pub open spec fn well_formed(self) -> bool {
        match self {
            Statement::Update { id, changes } => !changes.spec_is_empty(),
            _ => true,
        }
    }

    /// The SQL text of the statement, with `?` for each parameter.
    pub open spec fn spec_sql(self) -> Seq<char> {
        match self {
            Statement::Begin => "BEGIN TRANSACTION"@,
            Statement::Commit => "COMMIT"@,
            Statement::Rollback => "ROLLBACK"@,
            Statement::Insert { title } => "INSERT INTO todos (title, completed) VALUES (?, false)"@,
            Statement::LastInsertId => "SELECT last_insert_rowid() AS id"@,
            Statement::SelectAll => "SELECT id, title, completed FROM todos"@,
            Statement::SelectById { id } => "SELECT id, title, completed FROM todos WHERE id = ?"@,
            Statement::Update { id, changes } => "UPDATE todos SET "@ + set_clause(
                assigned_columns(changes),
            ) + " WHERE id = ?"@,
            Statement::Delete { id } => "DELETE FROM todos WHERE id = ? RETURNING id"@,
        }
    }

    /// The values bound to the `?` of the SQL text, in order.
    pub open spec fn spec_parameters(self) -> Seq<ValueView> {
        match self {
            Statement::Insert { title } => seq![ValueView::Text(title@)],
            Statement::SelectById { id } => seq![id_parameter(id)],
            Statement::Update { id, changes } => assigned_values(changes).push(id_parameter(id)),
            Statement::Delete { id } => seq![id_parameter(id)],
            _ => seq![],
        }
    }

    /// Writes the SQL text of the statement.
    pub fn sql(&self) -> (text: String)
        ensures
            text@ == self.spec_sql(),
    {
        match self {
            Statement::Begin => String::from_str("BEGIN TRANSACTION"),
            Statement::Commit => String::from_str("COMMIT"),
            Statement::Rollback => String::from_str("ROLLBACK"),
            Statement::Insert { .. } => String::from_str(
                "INSERT INTO todos (title, completed) VALUES (?, false)",
            ),
            Statement::LastInsertId => String::from_str("SELECT last_insert_rowid() AS id"),
            Statement::SelectAll => String::from_str("SELECT id, title, completed FROM todos"),
            Statement::SelectById { .. } => String::from_str(
                "SELECT id, title, completed FROM todos WHERE id = ?",
            ),
            Statement::Update { changes, .. } => {
                let pairs = assignments(changes);
                let clause = render_set_clause(&pairs);
                let mut text = String::from_str("UPDATE todos SET ");
                text.append(clause.as_str());
                text.append(" WHERE id = ?");
                text
            },
            Statement::Delete { .. } => String::from_str(
                "DELETE FROM todos WHERE id = ? RETURNING id",
            ),
        }
    }

    /// Lists the values bound to the `?` of the SQL text, in order.
    pub fn parameters(&self) -> (values: Vec<Value>)
        ensures
            value_views(values@) == self.spec_parameters(),
    {
        let mut values: Vec<Value> = Vec::new();
        match self {
            Statement::Insert { title } => {
                values.push(Value::Text(title.clone()));
            },
            Statement::SelectById { id } => {
                values.push(bind_id(*id));
            },
            Statement::Update { id, changes } => {
                if let Some(title) = &changes.title {
                    values.push(Value::Text(title.clone()));
                }
                if let Some(completed) = changes.completed {
                    values.push(Value::Integer(if completed { 1 } else { 0 }));
                }
                values.push(bind_id(*id));
            },
            Statement::Delete { id } => {
                values.push(bind_id(*id));
            },
            _ => {},
        }
        values
    }
}

/// Binds an id as a parameter.
pub fn bind_id(id: u64) -> (value: Value)
    ensures
        value@ == id_parameter(id),
        id <= i64::MAX ==> value@ == ValueView::Integer(id as int as i64),
{
    Value::Integer(#[verifier::truncate] (id as i64))
}

} // verus!
