//! The flat result model behind the C boundary.
//!
//! Every value that crosses the boundary is described here in its flat
//! shape: strings, arrays with their lengths, and a tagged result envelope
//! whose tag says what its payload is. The functions take what a C caller
//! hands over (a missing pointer is `None`) and decide what comes back: a
//! request, or no request where an argument is missing or malformed, and for
//! every parse a well-formed envelope. Laying these shapes out in C memory,
//! and releasing them, is the caller-facing shim's work.
use vstd::prelude::*;
use vstd::string::*;
use crate::client::{
    item_path, list_path, status_error, trim_trailing_slashes, TodoClient,
};
use crate::error::{error_text, ApiError};
use crate::http::{HttpMethod, HttpRequest, HttpResponse};
use crate::ident::{hyphenated, uuid_parsed, TodoId};
use crate::json::{create_json, todo_from_json, todos_from_json, update_json};
use crate::types::{todo_model, CreateTodo, Todo, UpdateTodo};

verus! {

/// Opaque handle to a mapper, held by a caller across the boundary.
pub struct FfiTodoClient {
    inner: TodoClient,
}

impl FfiTodoClient {
    /// The base address of the mapper behind the handle.
    pub closed spec fn base(&self) -> Seq<char> {
        self.inner.base()
    }
}

/// HTTP method in flat form.
#[derive(Debug, Clone, Copy, PartialEq, Eq, Structural)]
pub enum FfiHttpMethod {
    Get,
    Post,
    Put,
    Delete,
}

/// The flat method for a method.
pub open spec fn flat_method(m: HttpMethod) -> FfiHttpMethod {
    match m {
        HttpMethod::Get => FfiHttpMethod::Get,
        HttpMethod::Post => FfiHttpMethod::Post,
        HttpMethod::Put => FfiHttpMethod::Put,
        HttpMethod::Delete => FfiHttpMethod::Delete,
    }
}

impl From<HttpMethod> for FfiHttpMethod {
    fn from(m: HttpMethod) -> (r: FfiHttpMethod) {
        match m {
            HttpMethod::Get => FfiHttpMethod::Get,
            HttpMethod::Post => FfiHttpMethod::Post,
            HttpMethod::Put => FfiHttpMethod::Put,
            HttpMethod::Delete => FfiHttpMethod::Delete,
        }
    }
}

impl vstd::std_specs::convert::FromSpecImpl<HttpMethod> for FfiHttpMethod {
    open spec fn obeys_from_spec() -> bool {
        true
    }

    open spec fn from_spec(m: HttpMethod) -> FfiHttpMethod {
        flat_method(m)
    }
}

/// One header: name and value.
#[derive(Debug, Clone)]
pub struct FfiHeader {
    pub key: String,
    pub value: String,
}

/// A request in flat form; `headers_len` is the number of headers.
#[derive(Debug, Clone)]
pub struct FfiHttpRequest {
    pub method: FfiHttpMethod,
    pub path: String,
    pub headers: Vec<FfiHeader>,
    pub headers_len: u32,
    pub body: Option<String>,
}

/// Whether `f` is the flat form of `r`.
pub open spec fn flattens(f: FfiHttpRequest, r: HttpRequest) -> bool {
    &&& f.method == flat_method(r.method)
    &&& f.path@ == r.path@
    &&& f.headers@.len() == r.headers@.len()
    &&& f.headers_len as int == r.headers@.len()
    &&& forall|i: int|
        0 <= i < r.headers@.len() ==> (#[trigger] f.headers@[i]).key@ == r.headers@[i].0@
            && f.headers@[i].value@ == r.headers@[i].1@
    &&& match r.body {
        Some(b) => f.body matches Some(fb) && fb@ == b@,
        None => f.body is None,
    }
}

impl FfiHttpRequest {
    /// The flat form of a request.
    pub fn from_core(req: HttpRequest) -> (r: FfiHttpRequest)
        requires
            req.headers@.len() <= u32::MAX,
        ensures
            flattens(r, req),
    {
        let n = req.headers.len();
        let mut headers: Vec<FfiHeader> = Vec::new();
        let mut i: usize = 0;
        while i < n
            invariant
                n == req.headers@.len(),
                i <= n,
                headers@.len() == i,
                forall|j: int|
                    0 <= j < i ==> (#[trigger] headers@[j]).key@ == req.headers@[j].0@
                        && headers@[j].value@ == req.headers@[j].1@,
            decreases n - i,
        {
            let key = req.headers[i].0.clone();
            let value = req.headers[i].1.clone();
            headers.push(FfiHeader { key, value });
            i = i + 1;
        }
        FfiHttpRequest {
            method: FfiHttpMethod::from(req.method),
            path: req.path,
            headers,
            headers_len: n as u32,
            body: req.body,
        }
    }
}

/// A response as the caller describes it; a missing body reads as empty.
#[derive(Debug, Clone)]
pub struct FfiHttpResponse {
    pub status: u16,
    pub body: Option<String>,
}

/// The body text of a flat response.
pub open spec fn body_text(r: FfiHttpResponse) -> Seq<char> {
    match r.body {
        Some(b) => b@,
        None => Seq::empty(),
    }
}

/// What went wrong, or `Ok`.
#[derive(Debug, Clone, Copy, PartialEq, Eq, Structural)]
pub enum FfiErrorCode {
    Success,
    NotFound,
    Http,
    Deserialization,
    Serialization,
    Panic,
    NullArg,
}

/// What the payload of an envelope is.
#[derive(Debug, Clone, Copy, PartialEq, Eq, Structural)]
pub enum FfiDataTag {
    Empty,
    Todo,
    TodoList,
}

/// An item in flat form; the identifier is its canonical text.
#[derive(Debug, Clone)]
pub struct FfiTodo {
    pub id: String,
    pub title: String,
    pub completed: bool,
}

/// Whether `f` is the flat form of the item read as `m`.
pub open spec fn flat_todo(f: FfiTodo, m: (u128, Seq<char>, bool)) -> bool {
    f.id@ == hyphenated(m.0) && f.title@ == m.1 && f.completed == m.2
}

/// A list of items in flat form; `len` is the number of items.
#[derive(Debug, Clone)]
pub struct FfiTodoList {
    pub items: Vec<FfiTodo>,
    pub len: u32,
}

/// What an envelope carries.
#[derive(Debug, Clone)]
pub enum FfiPayload {
    Nothing,
    Todo(FfiTodo),
    TodoList(FfiTodoList),
}

/// Result envelope of every parse operation: on success the code is `Ok`,
/// there is no message and the payload is tagged; on failure the code says
/// what failed, the message describes it and there is no payload.
#[derive(Debug, Clone)]
pub struct FfiTodoResult {
    pub error_code: FfiErrorCode,
    pub error_message: Option<String>,
    pub http_status: u16,
    pub data_tag: FfiDataTag,
    pub data: FfiPayload,
}

impl FfiTodoResult {
    /// The tag names the payload's shape, a message comes exactly with a
    /// failure, a failure carries no payload, and a list's length is its count.
    pub open spec fn wf(&self) -> bool {
        &&& match self.data {
            FfiPayload::Nothing => self.data_tag == FfiDataTag::Empty,
            FfiPayload::Todo(_) => self.data_tag == FfiDataTag::Todo,
            FfiPayload::TodoList(l) => self.data_tag == FfiDataTag::TodoList && l.len as int
                == l.items@.len(),
        }
        &&& (self.error_code == FfiErrorCode::Success <==> self.error_message is None)
        &&& self.error_code != FfiErrorCode::Success ==> self.data is Nothing
    }

    /// Whether this is the failure envelope with `code`, `status` and message `msg`.
    pub open spec fn is_failure(&self, code: FfiErrorCode, status: u16, msg: Seq<char>) -> bool {
        &&& self.error_code == code
        &&& self.http_status == status
        &&& self.error_message matches Some(m) && m@ == msg
        &&& self.data is Nothing
    }

    /// A success envelope carrying one item.
    pub fn ok_todo(todo: Todo) -> (r: FfiTodoResult)
        ensures
            r.wf(),
            r.error_code == FfiErrorCode::Success,
            r.http_status == 0,
            r.data matches FfiPayload::Todo(t) && flat_todo(t, todo_model(todo)),
    {
        let id = todo.id.to_text();
        FfiTodoResult {
            error_code: FfiErrorCode::Success,
            error_message: None,
            http_status: 0,
            data_tag: FfiDataTag::Todo,
            data: FfiPayload::Todo(FfiTodo { id, title: todo.title, completed: todo.completed }),
        }
    }

    /// A success envelope carrying a list of items, in order.
    pub fn ok_todo_list(todos: Vec<Todo>) -> (r: FfiTodoResult)
        requires
            todos@.len() <= u32::MAX,
        ensures
            r.wf(),
            r.error_code == FfiErrorCode::Success,
            r.http_status == 0,
            r.data matches FfiPayload::TodoList(l) && l.items@.len() == todos@.len() && forall|
                i: int,
            |
                0 <= i < todos@.len() ==> flat_todo(
                    #[trigger] l.items@[i],
                    todo_model(todos@[i]),
                ),
    {
        let n = todos.len();
        let mut items: Vec<FfiTodo> = Vec::new();
        let mut i: usize = 0;
        while i < n
            invariant
                n == todos@.len(),
                i <= n,
                items@.len() == i,
                forall|j: int| 0 <= j < i ==> flat_todo(#[trigger] items@[j], todo_model(todos@[j])),
            decreases n - i,
        {
            let id = todos[i].id.to_text();
            let title = todos[i].title.clone();
            items.push(FfiTodo { id, title, completed: todos[i].completed });
            i = i + 1;
        }
        FfiTodoResult {
            error_code: FfiErrorCode::Success,
            error_message: None,
            http_status: 0,
            data_tag: FfiDataTag::TodoList,
            data: FfiPayload::TodoList(FfiTodoList { items, len: n as u32 }),
        }
    }

    /// A success envelope without payload.
    pub fn ok_empty() -> (r: FfiTodoResult)
        ensures
            r.wf(),
            r.error_code == FfiErrorCode::Success,
            r.http_status == 0,
            r.data is Nothing,
    {
        FfiTodoResult {
            error_code: FfiErrorCode::Success,
            error_message: None,
            http_status: 0,
            data_tag: FfiDataTag::Empty,
            data: FfiPayload::Nothing,
        }
    }

    /// The failure envelope of an error: its code, the status (404 for
    /// not-found, the answered status for an HTTP error, else 0) and its description.
    pub fn from_error(err: ApiError) -> (r: FfiTodoResult)
        ensures
            r.wf(),
            r.is_failure(error_code_of(err), error_status_of(err), error_text(err)),
    {
        let msg = err.message();
        let (code, status) = match &err {
            ApiError::NotFound => (FfiErrorCode::NotFound, 404u16),
            ApiError::HttpError { status, .. } => (FfiErrorCode::Http, *status),
            ApiError::DeserializationError(_) => (FfiErrorCode::Deserialization, 0u16),
            ApiError::SerializationError(_) => (FfiErrorCode::Serialization, 0u16),
        };
        FfiTodoResult {
            error_code: code,
            error_message: Some(msg),
            http_status: status,
            data_tag: FfiDataTag::Empty,
            data: FfiPayload::Nothing,
        }
    }

    /// The failure envelope for a missing argument called `name`.
    pub fn null_arg(name: &str) -> (r: FfiTodoResult)
        ensures
            r.wf(),
            r.is_failure(FfiErrorCode::NullArg, 0, "null argument: "@ + name@),
    {
        let mut msg = String::from_str("null argument: ");
        msg.append(name);
        FfiTodoResult {
            error_code: FfiErrorCode::NullArg,
            error_message: Some(msg),
            http_status: 0,
            data_tag: FfiDataTag::Empty,
            data: FfiPayload::Nothing,
        }
    }

    /// The failure envelope for an intercepted fault, described by `msg`.
    pub fn panic(msg: &str) -> (r: FfiTodoResult)
        ensures
            r.wf(),
            r.is_failure(FfiErrorCode::Panic, 0, msg@),
    {
        FfiTodoResult {
            error_code: FfiErrorCode::Panic,
            error_message: Some(String::from_str(msg)),
            http_status: 0,
            data_tag: FfiDataTag::Empty,
            data: FfiPayload::Nothing,
        }
    }
}

/// The flat error code of an error.
pub open spec fn error_code_of(e: ApiError) -> FfiErrorCode {
    match e {
        ApiError::NotFound => FfiErrorCode::NotFound,
        ApiError::HttpError { .. } => FfiErrorCode::Http,
        ApiError::DeserializationError(_) => FfiErrorCode::Deserialization,
        ApiError::SerializationError(_) => FfiErrorCode::Serialization,
    }
}

/// The status that the envelope of an error reports.
pub open spec fn error_status_of(e: ApiError) -> u16 {
    match e {
        ApiError::NotFound => 404,
        ApiError::HttpError { status, .. } => status,
        _ => 0,
    }
}

/// Whether `f` is the flat request with no headers and no body.
pub open spec fn is_flat_bare(f: FfiHttpRequest, method: FfiHttpMethod, path: Seq<char>) -> bool {
    f.method == method && f.path@ == path && f.headers@.len() == 0 && f.headers_len == 0
        && f.body is None
}

/// Whether `f` is the flat request that carries the JSON object `body`.
pub open spec fn is_flat_json(
    f: FfiHttpRequest,
    method: FfiHttpMethod,
    path: Seq<char>,
    body: Seq<char>,
) -> bool {
    &&& f.method == method
    &&& f.path@ == path
    &&& f.headers@.len() == 1
    &&& f.headers_len == 1
    &&& f.headers@[0].key@ == "content-type"@
    &&& f.headers@[0].value@ == "application/json"@
    &&& f.body matches Some(b) && b@ == body
}

/// The optional flag that a flat tri-state integer stands for: 0 is false,
/// 1 is true, any other value is absent.
pub open spec fn tri_state_flag(v: i32) -> Option<bool> {
    if v == 0 {
        Some(false)
    } else if v == 1 {
        Some(true)
    } else {
        None
    }
}

/// Reads a flat tri-state integer as an optional flag.
pub fn tri_state(v: i32) -> (r: Option<bool>)
    ensures
        r == tri_state_flag(v),
{
    match v {
        0 => Some(false),
        1 => Some(true),
        _ => None,
    }
}

/// The envelope that an unexpected status gives: not-found for 404, else an
/// HTTP error with the status and the body in its message.
pub open spec fn status_failure(r: FfiTodoResult, status: u16, body: Seq<char>) -> bool {
    if status == 404 {
        r.is_failure(FfiErrorCode::NotFound, 404, "resource not found"@)
    } else {
        r.is_failure(
            FfiErrorCode::Http,
            status,
            "HTTP "@ + crate::text::decimal(status as nat) + ": "@ + body,
        )
    }
}

/// The envelope that a response to a one-item operation gives.
pub open spec fn item_envelope(r: FfiTodoResult, status: u16, body: Seq<char>, expected: u16) -> bool {
    if status != expected {
        status_failure(r, status, body)
    } else {
        match todo_from_json(body) {
            Some(m) => r.error_code == FfiErrorCode::Success && r.http_status == 0 && (
            r.data matches FfiPayload::Todo(t) && flat_todo(t, m)),
            None => r.error_code == FfiErrorCode::Deserialization && r.http_status == 0
                && r.data is Nothing,
        }
    }
}

/// The envelope that a response to a list operation gives; a list too long
/// for a flat length is a decoding failure.
pub open spec fn list_envelope(r: FfiTodoResult, status: u16, body: Seq<char>) -> bool {
    if status != 200 {
        status_failure(r, status, body)
    } else {
        match todos_from_json(body) {
            Some(ms) if ms.len() <= u32::MAX => r.error_code == FfiErrorCode::Success
                && r.http_status == 0 && (r.data matches FfiPayload::TodoList(l)
                && l.items@.len() == ms.len() && forall|i: int|
                0 <= i < ms.len() ==> flat_todo(#[trigger] l.items@[i], ms[i])),
            _ => r.error_code == FfiErrorCode::Deserialization && r.http_status == 0
                && r.data is Nothing,
        }
    }
}

/// The envelope for a missing client or response, checked in that order.
pub open spec fn null_arg_envelope(
    r: FfiTodoResult,
    client: Option<&FfiTodoClient>,
    response: Option<&FfiHttpResponse>,
) -> bool {
    if client is None {
        r.is_failure(FfiErrorCode::NullArg, 0, "null argument: "@ + "client"@)
    } else {
        r.is_failure(FfiErrorCode::NullArg, 0, "null argument: "@ + "response"@)
    }
}

/// A handle for the mapper at `base_url`; none without a base address.
pub fn todo_client_new(base_url: Option<&str>) -> (r: Option<FfiTodoClient>)
    ensures
        r is Some <==> base_url is Some,
        r matches Some(c) ==> c.base() == trim_trailing_slashes(base_url.unwrap()@),
{
    match base_url {
        Some(u) => Some(FfiTodoClient { inner: TodoClient::new(u) }),
        None => None,
    }
}

/// The flat list request; none without a handle.
pub fn todo_build_list_todos(client: Option<&FfiTodoClient>) -> (r: Option<FfiHttpRequest>)
    ensures
        r is Some <==> client is Some,
        r matches Some(f) ==> is_flat_bare(f, FfiHttpMethod::Get, list_path(client.unwrap().base())),
{
    match client {
        Some(c) => Some(FfiHttpRequest::from_core(c.inner.build_list_todos())),
        None => None,
    }
}

/// The flat fetch request; none without a handle or an identifier, or where
/// the identifier is no UUID.
pub fn todo_build_get_todo(client: Option<&FfiTodoClient>, id: Option<&str>) -> (r: Option<
    FfiHttpRequest,
>)
    ensures
        r is Some <==> client is Some && id is Some && uuid_parsed(id.unwrap()@) is Some,
        r matches Some(f) ==> is_flat_bare(
            f,
            FfiHttpMethod::Get,
            item_path(client.unwrap().base(), uuid_parsed(id.unwrap()@).unwrap()),
        ),
{
    let (c, s) = match (client, id) {
        (Some(c), Some(s)) => (c, s),
        _ => return None,
    };
    let uuid = TodoId::parse(s)?;
    Some(FfiHttpRequest::from_core(c.inner.build_get_todo(uuid)))
}

/// The flat create request; none without a handle or a title.
pub fn todo_build_create_todo(
    client: Option<&FfiTodoClient>,
    title: Option<&str>,
    completed: bool,
) -> (r: Option<FfiHttpRequest>)
    ensures
        r is Some <==> client is Some && title is Some,
        r matches Some(f) ==> is_flat_json(
            f,
            FfiHttpMethod::Post,
            list_path(client.unwrap().base()),
            create_json(title.unwrap()@, completed),
        ),
{
    let (c, t) = match (client, title) {
        (Some(c), Some(t)) => (c, t),
        _ => return None,
    };
    let input = CreateTodo { title: String::from_str(t), completed };
    match c.inner.build_create_todo(&input) {
        Ok(req) => Some(FfiHttpRequest::from_core(req)),
        Err(_) => None,
    }
}

/// The flat update request: a missing title and a tri-state flag outside
/// {0, 1} are left out. None without a handle or an identifier, or where the
/// identifier is no UUID.
pub fn todo_build_update_todo(
    client: Option<&FfiTodoClient>,
    id: Option<&str>,
    title: Option<&str>,
    completed: i32,
) -> (r: Option<FfiHttpRequest>)
    ensures
        r is Some <==> client is Some && id is Some && uuid_parsed(id.unwrap()@) is Some,
        r matches Some(f) ==> is_flat_json(
            f,
            FfiHttpMethod::Put,
            item_path(client.unwrap().base(), uuid_parsed(id.unwrap()@).unwrap()),
            update_json(
                match title {
                    Some(t) => Some(t@),
                    None => None,
                },
                tri_state_flag(completed),
            ),
        ),
{
    let (c, s) = match (client, id) {
        (Some(c), Some(s)) => (c, s),
        _ => return None,
    };
    let uuid = TodoId::parse(s)?;
    let title_opt = match title {
        Some(t) => Some(String::from_str(t)),
        None => None,
    };
    let input = UpdateTodo { title: title_opt, completed: tri_state(completed) };
    match c.inner.build_update_todo(uuid, &input) {
        Ok(req) => Some(FfiHttpRequest::from_core(req)),
        Err(_) => None,
    }
}

/// The flat delete request; none without a handle or an identifier, or where
/// the identifier is no UUID.
pub fn todo_build_delete_todo(client: Option<&FfiTodoClient>, id: Option<&str>) -> (r: Option<
    FfiHttpRequest,
>)
    ensures
        r is Some <==> client is Some && id is Some && uuid_parsed(id.unwrap()@) is Some,
        r matches Some(f) ==> is_flat_bare(
            f,
            FfiHttpMethod::Delete,
            item_path(client.unwrap().base(), uuid_parsed(id.unwrap()@).unwrap()),
        ),
{
    let (c, s) = match (client, id) {
        (Some(c), Some(s)) => (c, s),
        _ => return None,
    };
    let uuid = TodoId::parse(s)?;
    Some(FfiHttpRequest::from_core(c.inner.build_delete_todo(uuid)))
}

/// The response that a flat response describes, with no headers.
pub fn ffi_response_to_core(resp: &FfiHttpResponse) -> (r: HttpResponse)
    ensures
        r.status == resp.status,
        r.headers@.len() == 0,
        r.body@ == body_text(*resp),
{
    let body = match &resp.body {
        Some(b) => b.clone(),
        None => String::new(),
    };
    HttpResponse { status: resp.status, headers: Vec::new(), body }
}

fn null_arg_result(client: Option<&FfiTodoClient>, response: Option<&FfiHttpResponse>) -> (r:
    FfiTodoResult)
    requires
        client is None || response is None,
    ensures
        r.wf(),
        null_arg_envelope(r, client, response),
{
    if client.is_none() {
        FfiTodoResult::null_arg("client")
    } else {
        FfiTodoResult::null_arg("response")
    }
}

fn item_result(
    res: Result<Todo, ApiError>,
    Ghost(response): Ghost<HttpResponse>,
    expected: u16,
) -> (r: FfiTodoResult)
    requires
        res matches Ok(t) ==> response.status == expected && todo_from_json(response.body@)
            == Some(todo_model(t)),
        response.status == expected && todo_from_json(response.body@) is Some ==> res is Ok,
        response.status == expected && todo_from_json(response.body@) is None ==> res matches Err(
            ApiError::DeserializationError(_),
        ),
        response.status != expected ==> (res matches Err(e) && status_error(response, e)),
    ensures
        r.wf(),
        item_envelope(r, response.status, response.body@, expected),
{
    match res {
        Ok(t) => FfiTodoResult::ok_todo(t),
        Err(e) => FfiTodoResult::from_error(e),
    }
}

/// Reads a list response into an envelope; a missing argument gives a null-argument envelope.
pub fn todo_parse_list_todos(
    client: Option<&FfiTodoClient>,
    response: Option<&FfiHttpResponse>,
) -> (r: FfiTodoResult)
    ensures
        r.wf(),
        client is None || response is None ==> null_arg_envelope(r, client, response),
        client is Some && response is Some ==> list_envelope(
            r,
            response.unwrap().status,
            body_text(*response.unwrap()),
        ),
{
    let (c, resp) = match (client, response) {
        (Some(c), Some(resp)) => (c, resp),
        _ => return null_arg_result(client, response),
    };
    let core = ffi_response_to_core(resp);
    match c.inner.parse_list_todos(core) {
        Ok(ts) => {
            if ts.len() > u32::MAX as usize {
                FfiTodoResult::from_error(
                    ApiError::DeserializationError(String::from_str("too many items for a flat list")),
                )
            } else {
                FfiTodoResult::ok_todo_list(ts)
            }
        },
        Err(e) => FfiTodoResult::from_error(e),
    }
}

/// Reads a fetch response (200 expected) into an envelope.
pub fn todo_parse_get_todo(
    client: Option<&FfiTodoClient>,
    response: Option<&FfiHttpResponse>,
) -> (r: FfiTodoResult)
    ensures
        r.wf(),
        client is None || response is None ==> null_arg_envelope(r, client, response),
        client is Some && response is Some ==> item_envelope(
            r,
            response.unwrap().status,
            body_text(*response.unwrap()),
            200,
        ),
{
    let (c, resp) = match (client, response) {
        (Some(c), Some(resp)) => (c, resp),
        _ => return null_arg_result(client, response),
    };
    let core = ffi_response_to_core(resp);
    let ghost read = core;
    let res = c.inner.parse_get_todo(core);
    item_result(res, Ghost(read), 200)
}

/// Reads a create response (201 expected) into an envelope.
pub fn todo_parse_create_todo(
    client: Option<&FfiTodoClient>,
    response: Option<&FfiHttpResponse>,
) -> (r: FfiTodoResult)
    ensures
        r.wf(),
        client is None || response is None ==> null_arg_envelope(r, client, response),
        client is Some && response is Some ==> item_envelope(
            r,
            response.unwrap().status,
            body_text(*response.unwrap()),
            201,
        ),
{
    let (c, resp) = match (client, response) {
        (Some(c), Some(resp)) => (c, resp),
        _ => return null_arg_result(client, response),
    };
    let core = ffi_response_to_core(resp);
    let ghost read = core;
    let res = c.inner.parse_create_todo(core);
    item_result(res, Ghost(read), 201)
}

/// Reads an update response (200 expected) into an envelope.
pub fn todo_parse_update_todo(
    client: Option<&FfiTodoClient>,
    response: Option<&FfiHttpResponse>,
) -> (r: FfiTodoResult)
    ensures
        r.wf(),
        client is None || response is None ==> null_arg_envelope(r, client, response),
        client is Some && response is Some ==> item_envelope(
            r,
            response.unwrap().status,
            body_text(*response.unwrap()),
            200,
        ),
{
    let (c, resp) = match (client, response) {
        (Some(c), Some(resp)) => (c, resp),
        _ => return null_arg_result(client, response),
    };
    let core = ffi_response_to_core(resp);
    let ghost read = core;
    let res = c.inner.parse_update_todo(core);
    item_result(res, Ghost(read), 200)
}

/// Reads a delete response (204 expected) into an envelope without payload.
pub fn todo_parse_delete_todo(
    client: Option<&FfiTodoClient>,
    response: Option<&FfiHttpResponse>,
) -> (r: FfiTodoResult)
    ensures
        r.wf(),
        client is None || response is None ==> null_arg_envelope(r, client, response),
        client is Some && response is Some ==> if response.unwrap().status == 204 {
            r.error_code == FfiErrorCode::Success && r.http_status == 0 && r.data is Nothing
        } else {
            status_failure(r, response.unwrap().status, body_text(*response.unwrap()))
        },
{
    let (c, resp) = match (client, response) {
        (Some(c), Some(resp)) => (c, resp),
        _ => return null_arg_result(client, response),
    };
    let core = ffi_response_to_core(resp);
    match c.inner.parse_delete_todo(core) {
        Ok(()) => FfiTodoResult::ok_empty(),
        Err(e) => FfiTodoResult::from_error(e),
    }
}

} // verus!
