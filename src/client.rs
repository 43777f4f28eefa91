//! The request mapper: builds requests for each operation and reads the
//! responses, without doing any I/O.
//!
//! `TodoClient` holds only the base address. Each operation is a `build_*`
//! method producing an `HttpRequest` and a `parse_*` method reading an
//! `HttpResponse`; the caller executes the request in between.
use vstd::prelude::*;
use vstd::string::*;
use crate::error::ApiError;
use crate::http::{HttpMethod, HttpRequest, HttpResponse};
use crate::ident::{hyphenated, TodoId};
use crate::json::{
    create_json, decode_todo, decode_todo_list, encode_create, encode_update, todo_from_json,
    todos_from_json, update_json,
};
use crate::types::{opt_text, todo_model, CreateTodo, Todo, UpdateTodo};

verus! {

/// `s` without its trailing `/` characters.
pub open spec fn trim_trailing_slashes(s: Seq<char>) -> Seq<char>
    decreases s.len(),
{
    if s.len() > 0 && s.last() == '/' {
        trim_trailing_slashes(s.drop_last())
    } else {
        s
    }
}

/// Path of the collection of items under `base`.
pub open spec fn list_path(base: Seq<char>) -> Seq<char> {
    base + "/items"@
}

/// Path of one item under `base`.
pub open spec fn item_path(base: Seq<char>, id: u128) -> Seq<char> {
    base + "/items/"@ + hyphenated(id)
}

/// Whether `e` is the error that an unexpected status gives: not-found for
/// 404, else an HTTP error with the status and the raw body.
pub open spec fn status_error(resp: HttpResponse, e: ApiError) -> bool {
    if resp.status == 404 {
        e is NotFound
    } else {
        e matches ApiError::HttpError { status, body } && status == resp.status && body@
            == resp.body@
    }
}

/// Whether `r` is the request with no headers and no body.
pub open spec fn is_bare_request(r: HttpRequest, method: HttpMethod, path: Seq<char>) -> bool {
    r.method == method && r.path@ == path && r.headers@.len() == 0 && r.body is None
}

/// Whether `r` is the request that carries the JSON object `body`.
pub open spec fn is_json_request(
    r: HttpRequest,
    method: HttpMethod,
    path: Seq<char>,
    body: Seq<char>,
) -> bool {
    &&& r.method == method
    &&& r.path@ == path
    &&& r.headers@.len() == 1
    &&& r.headers@[0].0@ == "content-type"@
    &&& r.headers@[0].1@ == "application/json"@
    &&& r.body matches Some(b) && b@ == body
}

/// Maps a status other than the expected one to its error.
pub fn check_status(response: &HttpResponse, expected: u16) -> (r: Result<(), ApiError>)
    ensures
        r is Ok <==> response.status == expected,
        r matches Err(e) ==> status_error(*response, e),
{
    if response.status == expected {
        return Ok(());
    }
    if response.status == 404 {
        return Err(ApiError::NotFound);
    }
    Err(ApiError::HttpError { status: response.status, body: response.body.clone() })
}

/// Stateless mapper between the item operations and their HTTP form.
#[derive(Debug, Clone)]
pub struct TodoClient {
    base_url: String,
}

fn json_headers() -> (r: Vec<(String, String)>)
    ensures
        r@.len() == 1,
        r@[0].0@ == "content-type"@,
        r@[0].1@ == "application/json"@,
{
    vec![(String::from_str("content-type"), String::from_str("application/json"))]
}

impl TodoClient {
    /// The base address that paths start with.
    pub closed spec fn base(&self) -> Seq<char> {
        self.base_url@
    }

    /// A mapper for the server at `base_url`; trailing `/` are dropped.
    pub fn new(base_url: &str) -> (r: TodoClient)
        ensures
            r.base() == trim_trailing_slashes(base_url@),
    {
        let mut n = base_url.unicode_len();
        assert(base_url@.subrange(0, n as int) =~= base_url@);
        while n > 0 && base_url.get_char(n - 1) == '/'
            invariant
                n <= base_url@.len(),
                trim_trailing_slashes(base_url@.subrange(0, n as int)) == trim_trailing_slashes(
                    base_url@,
                ),
            decreases n,
        {
            assert(base_url@.subrange(0, n as int).drop_last() =~= base_url@.subrange(
                0,
                n - 1,
            ));
            n = n - 1;
        }
        let kept = base_url.substring_char(0, n);
        TodoClient { base_url: String::from_str(kept) }
    }

    fn collection_path(&self) -> (r: String)
        ensures
            r@ == list_path(self.base()),
    {
        let mut p = self.base_url.clone();
        p.append("/items");
        p
    }

    fn item_path(&self, id: TodoId) -> (r: String)
        ensures
            r@ == item_path(self.base(), id.0),
    {
        let mut p = self.base_url.clone();
        p.append("/items/");
        let t = id.to_text();
        p.append(t.as_str());
        p
    }

    /// The request that lists all items.
    pub fn build_list_todos(&self) -> (r: HttpRequest)
        ensures
            is_bare_request(r, HttpMethod::Get, list_path(self.base())),
    {
        HttpRequest {
            method: HttpMethod::Get,
            path: self.collection_path(),
            headers: Vec::new(),
            body: None,
        }
    }

    /// The request that fetches one item.
    pub fn build_get_todo(&self, id: TodoId) -> (r: HttpRequest)
        ensures
            is_bare_request(r, HttpMethod::Get, item_path(self.base(), id.0)),
    {
        HttpRequest {
            method: HttpMethod::Get,
            path: self.item_path(id),
            headers: Vec::new(),
            body: None,
        }
    }

    /// The request that creates an item.
    pub fn build_create_todo(&self, input: &CreateTodo) -> (r: Result<HttpRequest, ApiError>)
        ensures
            r is Ok,
            r matches Ok(req) ==> is_json_request(
                req,
                HttpMethod::Post,
                list_path(self.base()),
                create_json(input.title@, input.completed),
            ),
            r matches Err(e) ==> e is SerializationError,
    {
        let body = match encode_create(input) {
            Ok(b) => b,
            Err(m) => return Err(ApiError::SerializationError(m)),
        };
        Ok(
            HttpRequest {
                method: HttpMethod::Post,
                path: self.collection_path(),
                headers: json_headers(),
                body: Some(body),
            },
        )
    }

    /// The request that updates an item; absent fields are left out of the body.
    /// Encoding the payload cannot fail; the error is kept as a defensive path.
    pub fn build_update_todo(&self, id: TodoId, input: &UpdateTodo) -> (r: Result<
        HttpRequest,
        ApiError,
    >)
        ensures
            r is Ok,
            r matches Ok(req) ==> is_json_request(
                req,
                HttpMethod::Put,
                item_path(self.base(), id.0),
                update_json(
                    opt_text(input.title),
                    input.completed,
                ),
            ),
            r matches Err(e) ==> e is SerializationError,
    {
        let body = match encode_update(input) {
            Ok(b) => b,
            Err(m) => return Err(ApiError::SerializationError(m)),
        };
        Ok(
            HttpRequest {
                method: HttpMethod::Put,
                path: self.item_path(id),
                headers: json_headers(),
                body: Some(body),
            },
        )
    }

    /// The request that deletes an item.
    pub fn build_delete_todo(&self, id: TodoId) -> (r: HttpRequest)
        ensures
            is_bare_request(r, HttpMethod::Delete, item_path(self.base(), id.0)),
    {
        HttpRequest {
            method: HttpMethod::Delete,
            path: self.item_path(id),
            headers: Vec::new(),
            body: None,
        }
    }

    /// Reads a list response: status 200 and a JSON array of items.
    pub fn parse_list_todos(&self, response: HttpResponse) -> (r: Result<Vec<Todo>, ApiError>)
        ensures
            r matches Ok(ts) ==> response.status == 200 && todos_from_json(response.body@) == Some(
                ts@.map_values(|t: Todo| todo_model(t)),
            ),
            response.status == 200 && todos_from_json(response.body@) is Some ==> r is Ok,
            response.status == 200 && todos_from_json(response.body@) is None ==> r matches Err(
                ApiError::DeserializationError(_),
            ),
            response.status != 200 ==> (r matches Err(e) && status_error(response, e)),
    {
        check_status(&response, 200)?;
        match decode_todo_list(response.body.as_str()) {
            Ok(ts) => Ok(ts),
            Err(m) => Err(ApiError::DeserializationError(m)),
        }
    }

    /// Reads a fetch response: status 200 and a JSON item.
    pub fn parse_get_todo(&self, response: HttpResponse) -> (r: Result<Todo, ApiError>)
        ensures
            r matches Ok(t) ==> response.status == 200 && todo_from_json(response.body@) == Some(
                todo_model(t),
            ),
            response.status == 200 && todo_from_json(response.body@) is Some ==> r is Ok,
            response.status == 200 && todo_from_json(response.body@) is None ==> r matches Err(
                ApiError::DeserializationError(_),
            ),
            response.status != 200 ==> (r matches Err(e) && status_error(response, e)),
            response.status == 404 ==> r matches Err(ApiError::NotFound),
    {
        self.parse_item(response, 200)
    }

    /// Reads a create response: status 201 and a JSON item.
    pub fn parse_create_todo(&self, response: HttpResponse) -> (r: Result<Todo, ApiError>)
        ensures
            r matches Ok(t) ==> response.status == 201 && todo_from_json(response.body@) == Some(
                todo_model(t),
            ),
            response.status == 201 && todo_from_json(response.body@) is Some ==> r is Ok,
            response.status == 201 && todo_from_json(response.body@) is None ==> r matches Err(
                ApiError::DeserializationError(_),
            ),
            response.status != 201 ==> (r matches Err(e) && status_error(response, e)),
    {
        self.parse_item(response, 201)
    }

    /// Reads an update response: status 200 and a JSON item.
    pub fn parse_update_todo(&self, response: HttpResponse) -> (r: Result<Todo, ApiError>)
        ensures
            r matches Ok(t) ==> response.status == 200 && todo_from_json(response.body@) == Some(
                todo_model(t),
            ),
            response.status == 200 && todo_from_json(response.body@) is Some ==> r is Ok,
            response.status == 200 && todo_from_json(response.body@) is None ==> r matches Err(
                ApiError::DeserializationError(_),
            ),
            response.status != 200 ==> (r matches Err(e) && status_error(response, e)),
    {
        self.parse_item(response, 200)
    }

    /// Reads a delete response: status 204, body ignored.
    pub fn parse_delete_todo(&self, response: HttpResponse) -> (r: Result<(), ApiError>)
        ensures
            r is Ok <==> response.status == 204,
            r matches Err(e) ==> status_error(response, e),
    {
        check_status(&response, 204)
    }

    fn parse_item(&self, response: HttpResponse, expected: u16) -> (r: Result<Todo, ApiError>)
        ensures
            r matches Ok(t) ==> response.status == expected && todo_from_json(response.body@)
                == Some(todo_model(t)),
            response.status == expected && todo_from_json(response.body@) is Some ==> r is Ok,
            response.status == expected && todo_from_json(response.body@) is None ==> r matches Err(
                ApiError::DeserializationError(_),
            ),
            response.status != expected ==> (r matches Err(e) && status_error(response, e)),
    {
        check_status(&response, expected)?;
        match decode_todo(response.body.as_str()) {
            Ok(t) => Ok(t),
            Err(m) => Err(ApiError::DeserializationError(m)),
        }
    }
}

} // verus!
