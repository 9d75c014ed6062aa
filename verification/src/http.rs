//! Requests and responses as plain values: the method of a request, and
//! the status, headers and body of a response.

use vstd::prelude::*;
use crate::error::TodoError;

verus! {

/// The method of an HTTP request.
#[derive(Clone, Copy, Debug, PartialEq, Eq, Structural)]
pub enum Method {
    Get,
    Post,
    Put,
    Delete,
    Patch,
    Head,
    Options,
    Connect,
    Trace,
    /// Any method that HTTP does not define.
    Other,
}

/// An HTTP response.
#[derive(Debug, PartialEq, Eq)]
pub struct Response {
    pub status: u16,
    /// The headers as pairs of name and value, in the order in which they
    /// are sent.
    pub headers: Vec<(String, String)>,
    pub body: String,
}

/// A response as a mathematical value.
pub struct ResponseView {
    pub status: u16,
    pub headers: Seq<(Seq<char>, Seq<char>)>,
    pub body: Seq<char>,
}

impl View for Response {
    type V = ResponseView;

    open spec fn view(&self) -> ResponseView {
        ResponseView {
            status: self.status,
            headers: self.headers@.map_values(|h: (String, String)| (h.0@, h.1@)),
            body: self.body@,
        }
    }
}

/// The header that tells the kind of the body.
pub open spec fn content_type(kind: Seq<char>) -> (Seq<char>, Seq<char>) {
    ("content-type"@, kind)
}

/// The header that lets pages of any origin read the response.
pub open spec fn any_origin() -> (Seq<char>, Seq<char>) {
    ("Access-Control-Allow-Origin"@, "*"@)
}

/// A response with a body of the given kind that any origin may read.
pub open spec fn shared_reply(status: u16, kind: Seq<char>, body: Seq<char>) -> ResponseView {
    ResponseView { status, headers: seq![content_type(kind), any_origin()], body }
}

/// A JSON response: the body is marked as `application/json` and any origin
/// may read it.
pub open spec fn json_reply(status: u16, body: Seq<char>) -> ResponseView {
    shared_reply(status, "application/json"@, body)
}

/// An HTML response that any origin may read.
pub open spec fn html_reply(status: u16, body: Seq<char>) -> ResponseView {
    shared_reply(status, "text/html"@, body)
}

/// A response without headers and without a body.
pub open spec fn empty_reply(status: u16) -> ResponseView {
    ResponseView { status, headers: seq![], body: seq![] }
}

/// The response that reports an error: the error's status, and its message
/// as plain text.
pub open spec fn error_reply(error: TodoError) -> ResponseView {
    ResponseView {
        status: error.spec_status(),
        headers: seq![content_type("text/plain"@)],
        body: error.spec_message(),
    }
}

/// Builds a response with a body of the given kind that any origin may
/// read.
fn shared_response(status: u16, kind: &str, body: String) -> (response: Response)
    ensures
        response@ == shared_reply(status, kind@, body@),
{
    let mut headers: Vec<(String, String)> = Vec::new();
    headers.push((String::from_str("content-type"), String::from_str(kind)));
    headers.push((String::from_str("Access-Control-Allow-Origin"), String::from_str("*")));
    let response = Response { status, headers, body };
    proof {
        assert(response@.headers =~= seq![content_type(kind@), any_origin()]);
    }
    response
}

/// Builds a JSON response from a status and a JSON text.
pub fn json_response(status: u16, body: String) -> (response: Response)
    ensures
        response@ == json_reply(status, body@),
{
    shared_response(status, "application/json", body)
}

/// Builds an HTML response from a status and a page.
pub fn html_response(status: u16, body: String) -> (response: Response)
    ensures
        response@ == html_reply(status, body@),
{
    shared_response(status, "text/html", body)
}

/// Builds a response without headers and without a body.
pub fn empty_response(status: u16) -> (response: Response)
    ensures
        response@ == empty_reply(status),
{
    let response = Response { status, headers: Vec::new(), body: String::new() };
    proof {
        assert(response@.headers =~= seq![]);
    }
    response
}

/// Builds the response that reports an error.
pub fn error_response(error: TodoError) -> (response: Response)
    ensures
        response@ == error_reply(error),
{
    let mut headers: Vec<(String, String)> = Vec::new();
    headers.push((String::from_str("content-type"), String::from_str("text/plain")));
    let response = Response {
        status: error.status(),
        headers,
        body: String::from_str(error.message()),
    };
    proof {
        assert(response@.headers =~= seq![content_type("text/plain"@)]);
    }
    response
}

} // verus!
