//! The item and the payloads that create and update it.
use vstd::prelude::*;
use crate::ident::TodoId;

verus! {

/// An item as the server returns it; the server assigns `id`.
#[derive(Debug, Clone, PartialEq, Eq)]
pub struct Todo {
    pub id: TodoId,
    pub title: String,
    pub completed: bool,
}

/// What the library reads of an item: identifier value, title, completed flag.
pub open spec fn todo_model(t: Todo) -> (u128, Seq<char>, bool) {
    (t.id.0, t.title@, t.completed)
}

/// The text of an optional string field.
pub open spec fn opt_text(o: Option<String>) -> Option<Seq<char>> {
    match o {
        Some(t) => Some(t@),
        None => None,
    }
}

/// Payload that creates an item.
#[derive(Debug, Clone)]
pub struct CreateTodo {
    pub title: String,
    pub completed: bool,
}

/// Payload that updates an item: an absent field is left unchanged.
#[derive(Debug, Clone)]
pub struct UpdateTodo {
    pub title: Option<String>,
    pub completed: Option<bool>,
}

} // verus!
