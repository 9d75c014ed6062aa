//! The JSON text of what the service sends: strings, numbers, a todo, a list
//! of todos, the reply of the inference endpoint.

use vstd::prelude::*;
use crate::models::{views, Todo, TodoView};

verus! {

/// The hexadecimal digit for a number below 16, in lower case.
pub open spec fn hex_digit(n: int) -> char {
    if n < 10 {
        ('0' as int + n) as char
    } else {
        ('a' as int + (n - 10)) as char
    }
}

/// One character as it stands inside a JSON string: the quote and the
/// backslash get a backslash before them, the control characters below
/// U+0020 become `\b`, `\t`, `\n`, `\f`, `\r` or `\u00` and two hexadecimal
/// digits, and every other character stands for itself.
pub open spec fn escaped_char(c: char) -> Seq<char> {
    if c == '"' {
        seq!['\\', '"']
    } else if c == '\\' {
        seq!['\\', '\\']
    } else if c == '\u{8}' {
        seq!['\\', 'b']
    } else if c == '\t' {
        seq!['\\', 't']
    } else if c == '\n' {
        seq!['\\', 'n']
    } else if c == '\u{c}' {
        seq!['\\', 'f']
    } else if c == '\r' {
        seq!['\\', 'r']
    } else if (c as int) < 0x20 {
        seq!['\\', 'u', '0', '0', hex_digit(c as int / 16), hex_digit(c as int % 16)]
    } else {
        seq![c]
    }
}

/// The characters of a text as they stand inside a JSON string.
pub open spec fn escaped(text: Seq<char>) -> Seq<char>
    decreases text.len(),
{
    if text.len() == 0 {
        seq![]
    } else {
        escaped(text.drop_last()) + escaped_char(text.last())
    }
}

/// A text as a JSON string: its escaped characters between two quotes.
pub open spec fn json_string(text: Seq<char>) -> Seq<char> {
    seq!['"'] + escaped(text) + seq!['"']
}

/// `serde_json::to_string` on a string slice: the text as a JSON string, in
/// the compact form, with the escapes of `escaped_char` and no others.
/// Serialising a string slice into memory does not fail.
#[verifier::external_body]
fn quote(text: &str) -> (quoted: String)
    ensures
        quoted@ == json_string(text@),
{
    serde_json::to_string(text).unwrap_or_default()
}

/// The decimal digit for a number below 10.
pub open spec fn digit(n: nat) -> char {
    ('0' as int + n) as char
}

/// A number in decimal, without sign or leading zeros.
pub open spec fn decimal(n: nat) -> Seq<char>
    decreases n,
{
    if n < 10 {
        seq![digit(n)]
    } else {
        decimal(n / 10).push(digit(n % 10))
    }
}

/// The text of one decimal digit.
fn digit_text(n: u64) -> (text: &'static str)
    requires
        n < 10,
    ensures
        text@ == seq![digit(n as nat)],
{
    proof {
        reveal_strlit("0");
        reveal_strlit("1");
        reveal_strlit("2");
        reveal_strlit("3");
        reveal_strlit("4");
        reveal_strlit("5");
        reveal_strlit("6");
        reveal_strlit("7");
        reveal_strlit("8");
        reveal_strlit("9");
    }
    let text = if n == 0 {
        "0"
    } else if n == 1 {
        "1"
    } else if n == 2 {
        "2"
    } else if n == 3 {
        "3"
    } else if n == 4 {
        "4"
    } else if n == 5 {
        "5"
    } else if n == 6 {
        "6"
    } else if n == 7 {
        "7"
    } else if n == 8 {
        "8"
    } else {
        "9"
    };
    text
}

/// Writes a number in decimal.
pub fn render_decimal(n: u64) -> (text: String)
    ensures
        text@ == decimal(n as nat),
    decreases n,
{
    if n < 10 {
        String::from_str(digit_text(n))
    } else {
        let mut text = render_decimal(n / 10);
        text.append(digit_text(n % 10));
        text
    }
}

/// The JSON text of a flag.
pub open spec fn json_bool(flag: bool) -> Seq<char> {
    if flag {
        "true"@
    } else {
        "false"@
    }
}

/// The JSON text of a todo: an object with the members `id`, `title` and
/// `completed`, in this order and without white space.
pub open spec fn todo_json(todo: TodoView) -> Seq<char> {
    "{\"id\":"@ + decimal(todo.id as nat) + ",\"title\":"@ + json_string(todo.title)
        + ",\"completed\":"@ + json_bool(todo.completed) + "}"@
}

/// The JSON texts of todos with a comma between two of them.
pub open spec fn joined(todos: Seq<TodoView>) -> Seq<char>
    decreases todos.len(),
{
    if todos.len() == 0 {
        seq![]
    } else if todos.len() == 1 {
        todo_json(todos[0])
    } else {
        joined(todos.drop_last()) + ","@ + todo_json(todos.last())
    }
}

/// The JSON text of a list of todos: an array of their objects.
pub open spec fn todos_json(todos: Seq<TodoView>) -> Seq<char> {
    "["@ + joined(todos) + "]"@
}

/// The JSON text of what the inference endpoint answers: an object with
/// the single member `response`.
pub open spec fn inference_json(text: Seq<char>) -> Seq<char> {
    "{\"response\":"@ + json_string(text) + "}"@
}

impl Todo {
    /// Writes the todo as JSON.
    pub fn to_json(&self) -> (text: String)
        ensures
            text@ == todo_json(self@),
    {
        let mut text = String::from_str("{\"id\":");
        text.append(render_decimal(self.id).as_str());
        text.append(",\"title\":");
        text.append(quote(self.title.as_str()).as_str());
        text.append(",\"completed\":");
        text.append(if self.completed { "true" } else { "false" });
        text.append("}");
        text
    }
}

/// Writes a list of todos as a JSON array.
pub fn render_todos(todos: &Vec<Todo>) -> (text: String)
    ensures
        text@ == todos_json(views(todos@)),
{
    let ghost all = views(todos@);
    let mut text = String::from_str("[");
    let mut i: usize = 0;
    while i < todos.len()
        invariant
            i <= todos.len(),
            all == views(todos@),
            text@ == "["@ + joined(all.take(i as int)),
        decreases todos.len() - i,
    {
        if i > 0 {
            text.append(",");
        }
        text.append(todos[i].to_json().as_str());
        proof {
            let next = all.take(i + 1);
            assert(next.drop_last() =~= all.take(i as int));
        }
        i += 1;
    }
    proof {
        assert(all.take(todos.len() as int) =~= all);
    }
    text.append("]");
    text
}

/// Writes the answer of the inference endpoint as JSON.
pub fn render_inference(reply: &str) -> (text: String)
    ensures
        text@ == inference_json(reply@),
{
    let mut text = String::from_str("{\"response\":");
    text.append(quote(reply).as_str());
    text.append("}");
    text
}

} // verus!
