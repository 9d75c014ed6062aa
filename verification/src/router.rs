//! The route table: which method and path reach which handler.
//!
//! A path matches a route only as a whole. The one pattern with a
//! parameter, `/todos/:id`, takes any single segment that is not empty in
//! the place of `:id`.

use vstd::prelude::*;
use crate::http::Method;
use crate::text::{chars_of, same_text, text_of};

verus! {

/// The handlers that a request can reach.
#[derive(Clone, Copy, Debug, PartialEq, Eq, Structural)]
pub enum Route {
    /// `GET /openapi.json`
    OpenApi,
    /// `GET /todos`
    ListTodos,
    /// `POST /todos`
    CreateTodo,
    /// `GET /todos/:id`
    FindTodo,
    /// `PUT /todos/:id`
    UpdateTodo,
    /// `DELETE /todos/:id`
    DeleteTodo,
    /// `GET /`
    Swagger,
    /// `POST /llm`
    Inference,
}

/// A route together with the segment that stands for `:id`, where the
/// route's pattern has one.
#[derive(Debug, PartialEq, Eq)]
pub struct Matched {
    pub route: Route,
    pub id: Option<String>,
}

/// A match as a mathematical value.
pub open spec fn matched(found: Option<Matched>) -> Option<(Route, Option<Seq<char>>)> {
    match found {
        Some(m) => Some(
            (
                m.route,
                match m.id {
                    Some(id) => Some(id@),
                    None => None,
                },
            ),
        ),
        None => None,
    }
}

/// The segment that stands for `:id` if the path matches `/todos/:id`: the
/// rest of the path after `/todos/`, which is not empty and holds no `/`.
pub open spec fn id_segment(path: Seq<char>) -> Option<Seq<char>> {
    let prefix = "/todos/"@;
    if path.len() > prefix.len() && path.take(prefix.len() as int) == prefix && !path.skip(
        prefix.len() as int,
    ).contains('/') {
        Some(path.skip(prefix.len() as int))
    } else {
        None
    }
}

/// The route on which `/todos/:id` is served for a method.
pub open spec fn item_route(method: Method) -> Option<Route> {
    match method {
        Method::Get => Some(Route::FindTodo),
        Method::Put => Some(Route::UpdateTodo),
        Method::Delete => Some(Route::DeleteTodo),
        _ => None,
    }
}

/// The route table.
pub open spec fn routed(method: Method, path: Seq<char>) -> Option<(Route, Option<Seq<char>>)> {
    if path == "/openapi.json"@ {
        if method == Method::Get {
            Some((Route::OpenApi, None))
        } else {
            None
        }
    } else if path == "/todos"@ {
        match method {
            Method::Get => Some((Route::ListTodos, None)),
            Method::Post => Some((Route::CreateTodo, None)),
            _ => None,
        }
    } else if path == "/"@ {
        if method == Method::Get {
            Some((Route::Swagger, None))
        } else {
            None
        }
    } else if path == "/llm"@ {
        if method == Method::Post {
            Some((Route::Inference, None))
        } else {
            None
        }
    } else {
        match (id_segment(path), item_route(method)) {
            (Some(id), Some(route)) => Some((route, Some(id))),
            _ => None,
        }
    }
}

/// Takes the segment that stands for `:id` out of a path that matches
/// `/todos/:id`.
pub fn take_id(path: &str) -> (id: Option<String>)
    ensures
        text_of(id) == id_segment(path@),
{
    proof {
        reveal_strlit("/todos/");
    }
    let chars = chars_of(path);
    let prefix = chars_of("/todos/");
    if chars.len() <= prefix.len() {
        return None;
    }
    let mut i: usize = 0;
    while i < prefix.len()
        invariant
            i <= prefix.len(),
            prefix@ == "/todos/"@,
            chars@ == path@,
            prefix.len() < chars.len(),
            forall|k: int| 0 <= k < i ==> chars@[k] == prefix@[k],
        decreases prefix.len() - i,
    {
        if chars[i] != prefix[i] {
            return None;
        }
        i += 1;
    }
    proof {
        assert(path@.take(prefix.len() as int) =~= prefix@);
    }
    let mut j: usize = prefix.len();
    while j < chars.len()
        invariant
            prefix.len() <= j <= chars.len(),
            prefix@ == "/todos/"@,
            chars@ == path@,
            forall|k: int| prefix.len() <= k < j ==> chars@[k] != '/',
        decreases chars.len() - j,
    {
        if chars[j] == '/' {
            proof {
                let rest = path@.skip(prefix.len() as int);
                assert(rest[j - prefix.len()] == '/');
            }
            return None;
        }
        j += 1;
    }
    proof {
        let rest = path@.skip(prefix.len() as int);
        assert(forall|k: int| 0 <= k < rest.len() ==> rest[k] != '/');
    }
    let rest = path.substring_char(prefix.len(), chars.len());
    Some(String::from_str(rest))
}

/// Finds the route of a request: the handler that serves this method on
/// this path, with the `:id` segment where the route has one. Nothing comes
/// back where no route matches, and the request is left to the host.
pub fn find_route(method: Method, path: &str) -> (found: Option<Matched>)
    ensures
        matched(found) == routed(method, path@),
{
    if same_text(path, "/openapi.json") {
        match method {
            Method::Get => Some(Matched { route: Route::OpenApi, id: None }),
            _ => None,
        }
    } else if same_text(path, "/todos") {
        match method {
            Method::Get => Some(Matched { route: Route::ListTodos, id: None }),
            Method::Post => Some(Matched { route: Route::CreateTodo, id: None }),
            _ => None,
        }
    } else if same_text(path, "/") {
        match method {
            Method::Get => Some(Matched { route: Route::Swagger, id: None }),
            _ => None,
        }
    } else if same_text(path, "/llm") {
        match method {
            Method::Post => Some(Matched { route: Route::Inference, id: None }),
            _ => None,
        }
    } else {
        let route = match method {
            Method::Get => Route::FindTodo,
            Method::Put => Route::UpdateTodo,
            Method::Delete => Route::DeleteTodo,
            _ => {
                return None;
            },
        };
        match take_id(path) {
            Some(id) => Some(Matched { route, id: Some(id) }),
            None => None,
        }
    }
}

} // verus!
