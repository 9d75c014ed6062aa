//! The parts of the request handlers that decide: how the id in a path is
//! read, what a missing or malformed body means, and which response reports
//! the result of an operation.

use vstd::prelude::*;
use crate::error::TodoError;
use crate::http::{empty_reply, empty_response, error_reply, error_response, html_reply, html_response, json_reply, json_response, Response, ResponseView};
use crate::json::{inference_json, render_inference, render_todos, todo_json, todos_json};
use crate::models::{views, Todo, TodoView};
use crate::protocol::outcome;
use crate::text::chars_of;

verus! {

/// Whether a character is a decimal digit.
pub open spec fn is_digit(c: char) -> bool {
    '0' as int <= c as int <= '9' as int
}

/// The number that a sequence of decimal digits stands for.
pub open spec fn number(digits: Seq<char>) -> nat
    decreases digits.len(),
{
    if digits.len() == 0 {
        0
    } else {
        number(digits.drop_last()) * 10 + (digits.last() as int - '0' as int) as nat
    }
}

/// A text without the `+` that it may begin with.
pub open spec fn unsigned(text: Seq<char>) -> Seq<char> {
    if text.len() > 0 && text[0] == '+' {
        text.skip(1)
    } else {
        text
    }
}

/// The id that a text stands for: one or more decimal digits, after at
/// most one `+`, whose number fits into 64 bits.
pub open spec fn parsed_id(text: Seq<char>) -> Option<u64> {
    let digits = unsigned(text);
    if digits.len() > 0 && (forall|i: int| 0 <= i < digits.len() ==> is_digit(digits[i]))
        && number(digits) <= u64::MAX {
        Some(number(digits) as u64)
    } else {
        None
    }
}

/// A sequence of digits stands for no less than any of its beginnings.
proof fn lemma_number_grows(digits: Seq<char>, k: int)
    requires
        0 <= k <= digits.len(),
        forall|i: int| 0 <= i < digits.len() ==> is_digit(digits[i]),
    ensures
        number(digits.take(k)) <= number(digits),
    decreases digits.len() - k,
{
    if k < digits.len() {
        assert(digits.take(k + 1).drop_last() =~= digits.take(k));
        lemma_number_grows(digits, k + 1);
    } else {
        assert(digits.take(k) =~= digits);
    }
}

/// Reads the id in a path. A text that is no id is malformed input.
pub fn parse_id(text: &str) -> (id: Result<u64, TodoError>)
    ensures
        id == (match parsed_id(text@) {
            Some(n) => Ok::<u64, TodoError>(n),
            None => Err(TodoError::Validation),
        }),
{
    let chars = chars_of(text);
    let start: usize = if chars.len() > 0 && chars[0] == '+' {
        1
    } else {
        0
    };
    let ghost digits = unsigned(text@);
    if start == chars.len() {
        return Err(TodoError::Validation);
    }
    let mut value: u64 = 0;
    let mut i: usize = start;
    while i < chars.len()
        invariant
            start <= i <= chars.len(),
            chars@ == text@,
            digits == unsigned(text@),
            digits.len() == chars.len() - start,
            forall|k: int| 0 <= k < digits.len() ==> digits[k] == chars@[k + start],
            forall|k: int| 0 <= k < i - start ==> is_digit(digits[k]),
            value == number(digits.take(i - start)),
        decreases chars.len() - i,
    {
        let c = chars[i];
        if c < '0' || c > '9' {
            proof {
                assert(!is_digit(digits[i - start]));
            }
            return Err(TodoError::Validation);
        }
        let d: u64 = (c as u32 - '0' as u32) as u64;
        proof {
            assert(digits.take(i - start + 1).drop_last() =~= digits.take(i - start));
        }
        if value > (u64::MAX - d) / 10 {
            proof {
                if forall|k: int| 0 <= k < digits.len() ==> is_digit(digits[k]) {
                    lemma_number_grows(digits, i - start + 1);
                }
            }
            return Err(TodoError::Validation);
        }
        value = value * 10 + d;
        i += 1;
    }
    proof {
        assert(digits.take(digits.len() as int) =~= digits);
    }
    Ok(value)
}

/// The body that a handler needs: a request without a body of the expected
/// shape is malformed input.
pub fn required_body<T>(body: Option<T>) -> (result: Result<T, TodoError>)
    ensures
        result == (match body {
            Some(shape) => Ok::<T, TodoError>(shape),
            None => Err(TodoError::Validation),
        }),
{
    match body {
        Some(shape) => Ok(shape),
        None => Err(TodoError::Validation),
    }
}

/// The response to an operation that yields a todo: the todo as JSON with
/// the given status, or the report of the error.
pub open spec fn todo_reply(status: u16, result: Result<TodoView, TodoError>) -> ResponseView {
    match result {
        Ok(todo) => json_reply(status, todo_json(todo)),
        Err(error) => error_reply(error),
    }
}

/// The response to the listing: the todos as a JSON array with status 200,
/// or the report of the error.
pub open spec fn list_reply(result: Result<Seq<TodoView>, TodoError>) -> ResponseView {
    match result {
        Ok(todos) => json_reply(200, todos_json(todos)),
        Err(error) => error_reply(error),
    }
}

/// The response to a delete: status 204 without a body, or the report of
/// the error.
pub open spec fn delete_reply(result: Result<(), TodoError>) -> ResponseView {
    match result {
        Ok(()) => empty_reply(204),
        Err(error) => error_reply(error),
    }
}

/// The response of the inference endpoint: the model's text as JSON with
/// status 200, or the report of the error.
pub open spec fn inference_reply(result: Result<Seq<char>, TodoError>) -> ResponseView {
    match result {
        Ok(text) => json_reply(200, inference_json(text)),
        Err(error) => error_reply(error),
    }
}

/// The todos of a listing as mathematical values.
pub open spec fn listed(result: Result<Vec<Todo>, TodoError>) -> Result<Seq<TodoView>, TodoError> {
    match result {
        Ok(todos) => Ok(views(todos@)),
        Err(error) => Err(error),
    }
}

/// The text of an inference as a mathematical value.
pub open spec fn inferred(result: Result<String, TodoError>) -> Result<Seq<char>, TodoError> {
    match result {
        Ok(text) => Ok(text@),
        Err(error) => Err(error),
    }
}

/// Builds the response to an operation that yields a todo.
fn todo_response(status: u16, result: &Result<Todo, TodoError>) -> (response: Response)
    ensures
        response@ == todo_reply(status, outcome(*result)),
{
    match result {
        Ok(todo) => json_response(status, todo.to_json()),
        Err(error) => error_response(*error),
    }
}

/// Builds the response to `GET /todos` from the result of the listing.
pub fn list_response(result: &Result<Vec<Todo>, TodoError>) -> (response: Response)
    ensures
        response@ == list_reply(listed(*result)),
{
    match result {
        Ok(todos) => json_response(200, render_todos(todos)),
        Err(error) => error_response(*error),
    }
}

/// Builds the response to `POST /todos` from the result of the creation:
/// status 201 with the new todo.
pub fn create_response(result: &Result<Todo, TodoError>) -> (response: Response)
    ensures
        response@ == todo_reply(201, outcome(*result)),
{
    todo_response(201, result)
}

/// Builds the response to `GET /todos/:id` from the result of the search:
/// status 200 with the todo.
pub fn find_response(result: &Result<Todo, TodoError>) -> (response: Response)
    ensures
        response@ == todo_reply(200, outcome(*result)),
{
    todo_response(200, result)
}

/// Builds the response to `PUT /todos/:id` from the result of the update:
/// status 200 with the todo as it now is.
pub fn update_response(result: &Result<Todo, TodoError>) -> (response: Response)
    ensures
        response@ == todo_reply(200, outcome(*result)),
{
    todo_response(200, result)
}

/// Builds the response to `DELETE /todos/:id` from the result of the
/// removal: status 204 and no body.
pub fn delete_response(result: &Result<(), TodoError>) -> (response: Response)
    ensures
        response@ == delete_reply(*result),
{
    match result {
        Ok(()) => empty_response(204),
        Err(error) => error_response(*error),
    }
}

/// Builds the response to `POST /llm` from what the inference gave: the
/// text that the model produced, or the failure that ends the request.
pub fn llm_handler(result: &Result<String, TodoError>) -> (response: Response)
    ensures
        response@ == inference_reply(inferred(*result)),
{
    match result {
        Ok(text) => json_response(200, render_inference(text.as_str())),
        Err(error) => error_response(*error),
    }
}

/// Builds the response to `GET /openapi.json` from the schema document.
pub fn openapi_handler(document: String) -> (response: Response)
    ensures
        response@ == json_reply(200, document@),
{
    json_response(200, document)
}

/// The page that shows the schema document in a browser.
pub const SWAGGER_UI: &'static str = "<!DOCTYPE html>
<html lang=\"en\">
<head>
  <meta charset=\"UTF-8\">
  <meta name=\"viewport\" content=\"width=device-width, initial-scale=1.0\">
  <title>Swagger UI</title>
  <link rel=\"stylesheet\" href=\"https://cdnjs.cloudflare.com/ajax/libs/swagger-ui/5.18.2/swagger-ui.min.css\">
  <script src=\"https://cdnjs.cloudflare.com/ajax/libs/swagger-ui/5.18.2/swagger-ui-bundle.min.js\"></script>
  <script src=\"https://cdnjs.cloudflare.com/ajax/libs/swagger-ui/5.18.2/swagger-ui-standalone-preset.min.js\"></script>
</head>
<body>
  <div id=\"app\"></div>
  <script>
    window.onload = function() {
      const ui = SwaggerUIBundle({
        url: \"/openapi.json\",
        dom_id: \"#app\",
        presets: [
          SwaggerUIBundle.presets.apis,
          SwaggerUIStandalonePreset
        ],
        layout: \"StandaloneLayout\"
      });
      window.ui = ui;
    };
  </script>
</body>
</html>
";

/// Builds the response to `GET /`: the page that loads `/openapi.json` and
/// shows it.
pub fn swagger_handler() -> (response: Response)
    ensures
        response@ == html_reply(200, SWAGGER_UI@),
{
    html_response(200, String::from_str(SWAGGER_UI))
}

} // verus!
