//! What the storage engine hands back for a statement: a list of column
//! names and rows of values, and the conversions that read a value as an
//! unsigned integer, a flag or a text.

use vstd::prelude::*;
use vstd::utf8::*;
use crate::text::{same_text, text_of};

verus! {

/// One SQLite value.
#[derive(Clone, Debug, PartialEq, Eq)]
pub enum Value {
    Integer(i64),
    /// A real number, held as the 64 bits of its IEEE 754 form.
    Real(u64),
    Text(String),
    Blob(Vec<u8>),
    Null,
}

/// A value as a mathematical value.
pub enum ValueView {
    Integer(i64),
    Real(u64),
    Text(Seq<char>),
    Blob(Seq<u8>),
    Null,
}

impl View for Value {
    type V = ValueView;

    open spec fn view(&self) -> ValueView {
        match self {
            Value::Integer(i) => ValueView::Integer(*i),
            Value::Real(bits) => ValueView::Real(*bits),
            Value::Text(s) => ValueView::Text(s@),
            Value::Blob(b) => ValueView::Blob(b@),
            Value::Null => ValueView::Null,
        }
    }
}

/// The values of a list as mathematical values.
pub open spec fn value_views(values: Seq<Value>) -> Seq<ValueView> {
    values.map_values(|v: Value| v@)
}

/// `String::from_utf8` on a copy of `bytes`: the text that the bytes encode,
/// or nothing where they are not UTF-8.
#[verifier::external_body]
fn utf8_text(bytes: &Vec<u8>) -> (text: Option<String>)
    ensures
        text_of(text) == (if valid_utf8(bytes@) {
            Some(decode_utf8(bytes@))
        } else {
            None
        }),
{
    String::from_utf8(bytes.clone()).ok()
}

impl Value {
    /// The value as an unsigned integer: an integer that is not negative.
    pub open spec fn spec_as_u64(self) -> Option<u64> {
        match self {
            Value::Integer(i) => if i >= 0 {
                Some(i as u64)
            } else {
                None
            },
            _ => None,
        }
    }

    /// The value as a flag: an integer, which is `true` unless it is zero.
    pub open spec fn spec_as_bool(self) -> Option<bool> {
        match self {
            Value::Integer(i) => Some(i != 0),
            _ => None,
        }
    }

    /// The value as a text: a text itself, or a blob whose bytes are UTF-8.
    pub open spec fn spec_as_text(self) -> Option<Seq<char>> {
        match self {
            Value::Text(s) => Some(s@),
            Value::Blob(b) => if valid_utf8(b@) {
                Some(decode_utf8(b@))
            } else {
                None
            },
            _ => None,
        }
    }

    /// Reads the value as an unsigned integer.
    pub fn as_u64(&self) -> (number: Option<u64>)
        ensures
            number == self.spec_as_u64(),
    {
        match self {
            Value::Integer(i) => if *i >= 0 {
                Some(*i as u64)
            } else {
                None
            },
            _ => None,
        }
    }

    /// Reads the value as a flag.
    pub fn as_bool(&self) -> (flag: Option<bool>)
        ensures
            flag == self.spec_as_bool(),
    {
        match self {
            Value::Integer(i) => Some(*i != 0),
            _ => None,
        }
    }

    /// Reads the value as a text.
    pub fn as_text(&self) -> (text: Option<String>)
        ensures
            text_of(text) == self.spec_as_text(),
    {
        match self {
            Value::Text(s) => Some(s.clone()),
            Value::Blob(b) => utf8_text(b),
            _ => None,
        }
    }
}

/// The first position at or after `from` whose name is `name`.
pub open spec fn position_from(columns: Seq<String>, name: Seq<char>, from: int) -> Option<int>
    decreases columns.len() - from,
{
    if from < 0 || from >= columns.len() {
        None
    } else if columns[from]@ == name {
        Some(from)
    } else {
        position_from(columns, name, from + 1)
    }
}

/// The position of the first column called `name`.
pub open spec fn position(columns: Seq<String>, name: Seq<char>) -> Option<int> {
    position_from(columns, name, 0)
}

/// Finds the first column called `name`.
pub fn find_column(columns: &Vec<String>, name: &str) -> (found: Option<usize>)
    ensures
        match found {
            Some(i) => position(columns@, name@) == Some(i as int),
            None => position(columns@, name@) is None,
        },
{
    let mut i: usize = 0;
    while i < columns.len()
        invariant
            i <= columns.len(),
            position(columns@, name@) == position_from(columns@, name@, i as int),
        decreases columns.len() - i,
    {
        if same_text(columns[i].as_str(), name) {
            return Some(i);
        }
        i += 1;
    }
    None
}

/// One row of a result: its values, in the order of the result's columns.
#[derive(Clone, Debug, PartialEq, Eq)]
pub struct RowResult {
    pub values: Vec<Value>,
}

impl RowResult {
    /// The value at `index`, if the row is that long.
    pub open spec fn value_at(self, index: int) -> Option<Value> {
        if 0 <= index < self.values@.len() {
            Some(self.values@[index])
        } else {
            None
        }
    }

    /// The value at `index` as an unsigned integer.
    pub open spec fn spec_get_u64(self, index: int) -> Option<u64> {
        match self.value_at(index) {
            Some(v) => v.spec_as_u64(),
            None => None,
        }
    }

    /// The value at `index` as a flag.
    pub open spec fn spec_get_bool(self, index: int) -> Option<bool> {
        match self.value_at(index) {
            Some(v) => v.spec_as_bool(),
            None => None,
        }
    }

    /// The value at `index` as a text.
    pub open spec fn spec_get_text(self, index: int) -> Option<Seq<char>> {
        match self.value_at(index) {
            Some(v) => v.spec_as_text(),
            None => None,
        }
    }

    /// Reads the value at `index` as an unsigned integer. Nothing comes back
    /// where the row is shorter or the value is of another kind.
    pub fn get_u64(&self, index: usize) -> (number: Option<u64>)
        ensures
            number == self.spec_get_u64(index as int),
    {
        if index < self.values.len() {
            self.values[index].as_u64()
        } else {
            None
        }
    }

    /// Reads the value at `index` as a flag.
    pub fn get_bool(&self, index: usize) -> (flag: Option<bool>)
        ensures
            flag == self.spec_get_bool(index as int),
    {
        if index < self.values.len() {
            self.values[index].as_bool()
        } else {
            None
        }
    }

    /// Reads the value at `index` as a text.
    pub fn get_text(&self, index: usize) -> (text: Option<String>)
        ensures
            text_of(text) == self.spec_get_text(index as int),
    {
        if index < self.values.len() {
            self.values[index].as_text()
        } else {
            None
        }
    }
}

/// A row together with the names of its columns, for access by name.
pub struct Row<'a> {
    pub columns: &'a Vec<String>,
    pub result: &'a RowResult,
}

impl<'a> Row<'a> {
    /// The value under the first column called `column` as an unsigned integer.
    pub open spec fn spec_get_u64(self, column: Seq<char>) -> Option<u64> {
        match position(self.columns@, column) {
            Some(i) => self.result.spec_get_u64(i),
            None => None,
        }
    }

    /// The value under the first column called `column` as a flag.
    pub open spec fn spec_get_bool(self, column: Seq<char>) -> Option<bool> {
        match position(self.columns@, column) {
            Some(i) => self.result.spec_get_bool(i),
            None => None,
        }
    }

    /// The value under the first column called `column` as a text.
    pub open spec fn spec_get_text(self, column: Seq<char>) -> Option<Seq<char>> {
        match position(self.columns@, column) {
            Some(i) => self.result.spec_get_text(i),
            None => None,
        }
    }

    /// Reads the value under `column` as an unsigned integer. Nothing comes
    /// back where no column has that name, the row is shorter than its
    /// columns, or the value is of another kind.
    pub fn get_u64(&self, column: &str) -> (number: Option<u64>)
        ensures
            number == self.spec_get_u64(column@),
    {
        match find_column(self.columns, column) {
            Some(i) => self.result.get_u64(i),
            None => None,
        }
    }

    /// Reads the value under `column` as a flag.
    pub fn get_bool(&self, column: &str) -> (flag: Option<bool>)
        ensures
            flag == self.spec_get_bool(column@),
    {
        match find_column(self.columns, column) {
            Some(i) => self.result.get_bool(i),
            None => None,
        }
    }

    /// Reads the value under `column` as a text.
    pub fn get_text(&self, column: &str) -> (text: Option<String>)
        ensures
            text_of(text) == self.spec_get_text(column@),
    {
        match find_column(self.columns, column) {
            Some(i) => self.result.get_text(i),
            None => None,
        }
    }
}

/// The rows that a statement produced.
#[derive(Clone, Debug, PartialEq, Eq)]
pub struct QueryResult {
    pub columns: Vec<String>,
    pub rows: Vec<RowResult>,
}

/// The rows of a list as mathematical values.
pub open spec fn row_views(rows: Seq<RowResult>) -> Seq<Seq<ValueView>> {
    rows.map_values(|r: RowResult| value_views(r.values@))
}

/// A result as a mathematical value: the names of the columns and the
/// values of each row.
pub struct RowsView {
    pub columns: Seq<Seq<char>>,
    pub rows: Seq<Seq<ValueView>>,
}

impl View for QueryResult {
    type V = RowsView;

    open spec fn view(&self) -> RowsView {
        RowsView {
            columns: self.columns@.map_values(|c: String| c@),
            rows: row_views(self.rows@),
        }
    }
}

impl QueryResult {
    /// The result of a statement that produces no rows.
    pub fn empty() -> (result: QueryResult)
        ensures
            result@ == (RowsView { columns: seq![], rows: seq![] }),
    {
        let result = QueryResult { columns: Vec::new(), rows: Vec::new() };
        proof {
            assert(result@.columns =~= seq![]);
            assert(result@.rows =~= seq![]);
        }
        result
    }

    /// The row at `index` with the result's column names.
    pub fn row(&self, index: usize) -> (row: Option<Row<'_>>)
        ensures
            match row {
                Some(r) => index < self.rows@.len() && *r.columns == self.columns && *r.result
                    == self.rows@[index as int],
                None => index >= self.rows@.len(),
            },
    {
        if index < self.rows.len() {
            Some(Row { columns: &self.columns, result: &self.rows[index] })
        } else {
            None
        }
    }
}

} // verus!
