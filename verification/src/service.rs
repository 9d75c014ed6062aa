//! The service in one process: the request handlers run against the
//! in-memory engine.

use vstd::prelude::*;
use crate::error::TodoError;
use crate::handlers::{create_response, delete_reply, delete_response, find_response, list_reply, list_response, parse_id, parsed_id, required_body, swagger_handler, todo_reply, update_response, SWAGGER_UI};
use crate::http::{error_reply, html_reply, Method, Response, ResponseView};
use crate::request::{CreateTodo, UpdateTodo};
use crate::router::{find_route, routed, Route};
use crate::store::{StoreState, TodoStore};

verus! {

/// The body of a request, as far as it has been read.
#[derive(Debug, PartialEq, Eq)]
pub enum Body {
    /// The request has no body.
    Empty,
    /// The body is not JSON of any shape that a handler takes.
    Malformed,
    /// The body has the shape that creates a todo.
    Create(CreateTodo),
    /// The body has the shape that changes a todo.
    Update(UpdateTodo),
}

/// A request to the service.
#[derive(Debug, PartialEq, Eq)]
pub struct Request {
    pub method: Method,
    pub path: String,
    pub body: Body,
}

impl StoreState {
    /// What `POST /todos` does: without a body of the right shape the
    /// request is refused with status 400; otherwise the todo is created
    /// and sent back with status 201.
    pub open spec fn create_handled(self, body: Option<CreateTodo>) -> (StoreState, ResponseView) {
        match body {
            Some(new) => (self.create(new.title@).0, todo_reply(201, self.create(new.title@).1)),
            None => (self, error_reply(TodoError::Validation)),
        }
    }

    /// What `GET /todos/:id` does: an id that is no number is refused with
    /// status 400; otherwise the todo is sent with status 200, or status
    /// 404 where no record has the id.
    pub open spec fn find_handled(self, id: Seq<char>) -> ResponseView {
        match parsed_id(id) {
            Some(id) => todo_reply(200, self.find(id)),
            None => error_reply(TodoError::Validation),
        }
    }

    /// What `PUT /todos/:id` does: an id that is no number, a body of the
    /// wrong shape and an update that names no field are refused with
    /// status 400; otherwise the record is changed and sent back with
    /// status 200, or status 404 where no record has the id.
    pub open spec fn update_handled(self, id: Seq<char>, body: Option<UpdateTodo>) -> (
        StoreState,
        ResponseView,
    ) {
        match (parsed_id(id), body) {
            (Some(id), Some(changes)) => (
                self.update(id, changes).0,
                todo_reply(200, self.update(id, changes).1),
            ),
            _ => (self, error_reply(TodoError::Validation)),
        }
    }

    /// What `DELETE /todos/:id` does: an id that is no number is refused
    /// with status 400; otherwise the record is removed and status 204
    /// sent, or status 404 where no record has the id.
    pub open spec fn delete_handled(self, id: Seq<char>) -> (StoreState, ResponseView) {
        match parsed_id(id) {
            Some(id) => (self.delete(id).0, delete_reply(self.delete(id).1)),
            None => (self, error_reply(TodoError::Validation)),
        }
    }

    /// What a request does to the table, and the response to it; no
    /// response where the request matches no route, or a route that only
    /// the host can serve.
    pub open spec fn handled(self, request: Request) -> (StoreState, Option<ResponseView>) {
        match routed(request.method, request.path@) {
            Some((Route::ListTodos, _)) => (self, Some(list_reply(Ok(self.rows)))),
            Some((Route::CreateTodo, _)) => (
                self.create_handled(create_body(request.body)).0,
                Some(self.create_handled(create_body(request.body)).1),
            ),
            Some((Route::FindTodo, Some(id))) => (self, Some(self.find_handled(id))),
            Some((Route::UpdateTodo, Some(id))) => (
                self.update_handled(id, update_body(request.body)).0,
                Some(self.update_handled(id, update_body(request.body)).1),
            ),
            Some((Route::DeleteTodo, Some(id))) => (
                self.delete_handled(id).0,
                Some(self.delete_handled(id).1),
            ),
            Some((Route::Swagger, _)) => (self, Some(html_reply(200, SWAGGER_UI@))),
            _ => (self, None),
        }
    }
}

/// The body of a request that creates a todo, if it has that shape.
pub open spec fn create_body(body: Body) -> Option<CreateTodo> {
    match body {
        Body::Create(new) => Some(new),
        _ => None,
    }
}

/// The body of a request that changes a todo, if it has that shape.
pub open spec fn update_body(body: Body) -> Option<UpdateTodo> {
    match body {
        Body::Update(changes) => Some(changes),
        _ => None,
    }
}

impl TodoStore {
    /// Serves `GET /todos`: all todos as a JSON array, with status 200.
    pub fn list_todos_handler(&mut self) -> (response: Response)
        requires
            old(self).wf(),
        ensures
            final(self).wf(),
            final(self)@ == old(self)@,
            response@ == list_reply(Ok(old(self)@.rows)),
    {
        let result = self.list();
        list_response(&result)
    }

    /// Serves `POST /todos`.
    pub fn create_todo_handler(&mut self, body: Option<CreateTodo>) -> (response: Response)
        requires
            old(self).wf(),
        ensures
            final(self).wf(),
            (final(self)@, response@) == old(self)@.create_handled(body),
    {
        let result = match required_body(body) {
            Ok(new) => self.create(&new),
            Err(error) => Err(error),
        };
        create_response(&result)
    }

    /// Serves `GET /todos/:id`, `id` being the text in the place of `:id`.
    pub fn find_todo_handler(&mut self, id: &str) -> (response: Response)
        requires
            old(self).wf(),
        ensures
            final(self).wf(),
            final(self)@ == old(self)@,
            response@ == old(self)@.find_handled(id@),
    {
        let result = match parse_id(id) {
            Ok(id) => self.find(id),
            Err(error) => Err(error),
        };
        find_response(&result)
    }

    /// Serves `PUT /todos/:id`, `id` being the text in the place of `:id`.
    pub fn update_todo_handler(&mut self, id: &str, body: Option<UpdateTodo>) -> (response:
        Response)
        requires
            old(self).wf(),
        ensures
            final(self).wf(),
            (final(self)@, response@) == old(self)@.update_handled(id@, body),
    {
        let result = match parse_id(id) {
            Ok(id) => match required_body(body) {
                Ok(changes) => self.update(id, &changes),
                Err(error) => Err(error),
            },
            Err(error) => Err(error),
        };
        update_response(&result)
    }

    /// Serves `DELETE /todos/:id`, `id` being the text in the place of
    /// `:id`.
    pub fn delete_todo_handler(&mut self, id: &str) -> (response: Response)
        requires
            old(self).wf(),
        ensures
            final(self).wf(),
            (final(self)@, response@) == old(self)@.delete_handled(id@),
    {
        let result = match parse_id(id) {
            Ok(id) => self.delete(id),
            Err(error) => Err(error),
        };
        delete_response(&result)
    }

    /// Serves a request: finds its route and runs the handler. The
    /// documentation page is served as well. Nothing comes back where no
    /// route matches, or the route is one that needs the host: the schema
    /// document and the inference.
    pub fn handle_route(&mut self, request: Request) -> (response: Option<Response>)
        requires
            old(self).wf(),
        ensures
            final(self).wf(),
            final(self)@ == old(self)@.handled(request).0,
            match response {
                Some(r) => old(self)@.handled(request).1 == Some(r@),
                None => old(self)@.handled(request).1 is None,
            },
    {
        let found = match find_route(request.method, request.path.as_str()) {
            Some(found) => found,
            None => {
                return None;
            },
        };
        match (found.route, found.id) {
            (Route::ListTodos, _) => Some(self.list_todos_handler()),
            (Route::CreateTodo, _) => {
                let body = match request.body {
                    Body::Create(new) => Some(new),
                    _ => None,
                };
                Some(self.create_todo_handler(body))
            },
            (Route::FindTodo, Some(id)) => Some(self.find_todo_handler(id.as_str())),
            (Route::UpdateTodo, Some(id)) => {
                let body = match request.body {
                    Body::Update(changes) => Some(changes),
                    _ => None,
                };
                Some(self.update_todo_handler(id.as_str(), body))
            },
            (Route::DeleteTodo, Some(id)) => Some(self.delete_todo_handler(id.as_str())),
            (Route::Swagger, _) => Some(swagger_handler()),
            _ => None,
        }
    }
}

} // verus!
