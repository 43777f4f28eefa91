//! Request building and response parsing for a todo-item HTTP API, with a
//! flat, tagged result model for callers across a C boundary, and the
//! request handling of a demo server that speaks the same API.
//!
//! The mapper (`TodoClient`) never does I/O: it builds `HttpRequest` values
//! and reads `HttpResponse` values that the caller exchanges with a server.

pub mod client;
pub mod error;
pub mod ffi;
pub mod http;
pub mod ident;
pub mod json;
pub mod laws;
pub mod server;
pub mod store;
pub mod text;
pub mod types;

pub use client::TodoClient;
pub use error::ApiError;
pub use http::{HttpMethod, HttpRequest, HttpResponse};
pub use ident::TodoId;
pub use types::{CreateTodo, Todo, UpdateTodo};
