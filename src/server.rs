//! The demo server's request handling: each handler reads a request's
//! parts, acts on the store and answers with a status and a JSON body.
use vstd::prelude::*;
use vstd::string::*;
use crate::http::HttpResponse;
use crate::ident::{uuid_parsed, TodoId};
use crate::json::{
    create_from_json, decode_create, decode_update, encode_todo, json_well_formed, todo_json,
    update_from_json, well_formed,
};
use crate::store::{lists, merged, ItemModel, TodoStore};
use crate::types::{todo_model, Todo};

verus! {

/// The JSON object text of a stored item.
pub open spec fn item_json(m: ItemModel) -> Seq<char> {
    todo_json(m.0, m.1, m.2)
}

/// The items' JSON objects joined by commas.
pub open spec fn joined_items(s: Seq<ItemModel>) -> Seq<char>
    decreases s.len(),
{
    if s.len() == 0 {
        Seq::empty()
    } else if s.len() == 1 {
        item_json(s[0])
    } else {
        joined_items(s.drop_last()) + ","@ + item_json(s.last())
    }
}

/// The JSON array text of a list of items.
pub open spec fn items_json(s: Seq<ItemModel>) -> Seq<char> {
    "["@ + joined_items(s) + "]"@
}

/// Whether `r` answers `status` with the JSON text `body`.
pub open spec fn is_json_response(r: HttpResponse, status: u16, body: Seq<char>) -> bool {
    &&& r.status == status
    &&& r.headers@.len() == 1
    &&& r.headers@[0].0@ == "content-type"@
    &&& r.headers@[0].1@ == "application/json"@
    &&& r.body@ == body
}

/// Whether `r` answers `status` with no headers and an empty body.
pub open spec fn is_empty_response(r: HttpResponse, status: u16) -> bool {
    r.status == status && r.headers@.len() == 0 && r.body@.len() == 0
}

fn empty_response(status: u16) -> (r: HttpResponse)
    ensures
        is_empty_response(r, status),
{
    HttpResponse { status, headers: Vec::new(), body: String::new() }
}

fn json_response(status: u16, body: String) -> (r: HttpResponse)
    ensures
        is_json_response(r, status, body@),
{
    HttpResponse {
        status,
        headers: vec![(String::from_str("content-type"), String::from_str("application/json"))],
        body,
    }
}

/// Answers `status` with the item's JSON object.
fn item_response(t: &Todo, status: u16) -> (r: HttpResponse)
    ensures
        is_json_response(r, status, item_json(todo_model(*t))),
{
    match encode_todo(t) {
        Ok(body) => json_response(status, body),
        Err(_) => vstd::pervasive::unreached(),
    }
}

/// `GET /items`: 200 and every item, each once, in the store's order.
pub fn handle_list(store: &TodoStore) -> (r: HttpResponse)
    requires
        store.wf(),
    ensures
        exists|s: Seq<ItemModel>| lists(s, store.view()) && is_json_response(r, 200, items_json(s)),
{
    let items = store.list();
    let ghost s = items@.map_values(|t: Todo| todo_model(t));
    let mut body = String::from_str("[");
    let mut i: usize = 0;
    while i < items.len()
        invariant
            i <= items@.len(),
            items@.map_values(|t: Todo| todo_model(t)) == s,
            body@ == "["@ + joined_items(s.subrange(0, i as int)),
        decreases items@.len() - i,
    {
        let text = match encode_todo(&items[i]) {
            Ok(t) => t,
            Err(_) => vstd::pervasive::unreached(),
        };
        assert(s.subrange(0, i + 1).drop_last() =~= s.subrange(0, i as int));
        assert(s[i as int] == todo_model(items@[i as int]));
        if i > 0 {
            body.append(",");
        }
        body.append(text.as_str());
        proof {
            if i == 0 {
                assert(joined_items(s.subrange(0, 0)) =~= Seq::<char>::empty());
            }
        }
        i = i + 1;
    }
    assert(s.subrange(0, i as int) =~= s);
    body.append("]");
    let r = json_response(200, body);
    assert(lists(s, store.view()) && is_json_response(r, 200, items_json(s)));
    r
}

/// `POST /items`: stores a new item under the fresh identifier `id` and
/// answers 201 with it; 400 where the body is no JSON text, 422 where it is
/// JSON but no create payload.
pub fn handle_create(store: &mut TodoStore, body: &str, id: TodoId) -> (r: HttpResponse)
    requires
        old(store).wf(),
    ensures
        final(store).wf(),
        !json_well_formed(body@) ==> is_empty_response(r, 400) && final(store).view() == old(
            store,
        ).view(),
        json_well_formed(body@) ==> match create_from_json(body@) {
            None => is_empty_response(r, 422) && final(store).view() == old(store).view(),
            Some(c) => {
                let m = (id.0, c.0, c.1);
                &&& final(store).view() == old(store).view().insert(id.0, m)
                &&& is_json_response(r, 201, item_json(m))
            },
        },
{
    if !well_formed(body) {
        return empty_response(400);
    }
    let input = match decode_create(body) {
        Ok(c) => c,
        Err(_) => return empty_response(422),
    };
    let item = Todo { id, title: input.title, completed: input.completed };
    let answer = item_response(&item, 201);
    store.insert(item);
    answer
}

/// `GET /items/{id}`: 200 and the item; 404 where there is none; 400 where
/// the identifier is no UUID.
pub fn handle_get(store: &TodoStore, id_text: &str) -> (r: HttpResponse)
    ensures
        match uuid_parsed(id_text@) {
            None => is_empty_response(r, 400),
            Some(v) => if store.view().contains_key(v) {
                is_json_response(r, 200, item_json(store.view()[v]))
            } else {
                is_empty_response(r, 404)
            },
        },
{
    let id = match TodoId::parse(id_text) {
        Some(id) => id,
        None => return empty_response(400),
    };
    match store.get(id) {
        Some(t) => item_response(&t, 200),
        None => empty_response(404),
    }
}

/// `PUT /items/{id}`: applies the update and answers 200 with the updated
/// item; 404 where there is none; 422 where the body is JSON but no update
/// payload; 400 where the identifier is no UUID or the body no JSON text.
pub fn handle_update(store: &mut TodoStore, id_text: &str, body: &str) -> (r: HttpResponse)
    requires
        old(store).wf(),
    ensures
        final(store).wf(),
        match uuid_parsed(id_text@) {
            None => is_empty_response(r, 400) && final(store).view() == old(store).view(),
            Some(v) => if !json_well_formed(body@) {
                is_empty_response(r, 400) && final(store).view() == old(store).view()
            } else {
                match update_from_json(body@) {
                    None => is_empty_response(r, 422) && final(store).view() == old(store).view(),
                    Some(u) => if old(store).view().contains_key(v) {
                        let n = merged(old(store).view()[v], u.0, u.1);
                        &&& final(store).view() == old(store).view().insert(v, n)
                        &&& is_json_response(r, 200, item_json(n))
                    } else {
                        is_empty_response(r, 404) && final(store).view() == old(store).view()
                    },
                }
            },
        },
{
    let id = match TodoId::parse(id_text) {
        Some(id) => id,
        None => return empty_response(400),
    };
    if !well_formed(body) {
        return empty_response(400);
    }
    let input = match decode_update(body) {
        Ok(u) => u,
        Err(_) => return empty_response(422),
    };
    match store.update(id, input.title, input.completed) {
        Some(t) => item_response(&t, 200),
        None => empty_response(404),
    }
}

/// `DELETE /items/{id}`: removes the item and answers 204; 404 where there
/// is none; 400 where the identifier is no UUID.
pub fn handle_delete(store: &mut TodoStore, id_text: &str) -> (r: HttpResponse)
    requires
        old(store).wf(),
    ensures
        final(store).wf(),
        match uuid_parsed(id_text@) {
            None => is_empty_response(r, 400) && final(store).view() == old(store).view(),
            Some(v) => {
                &&& final(store).view() == old(store).view().remove(v)
                &&& if old(store).view().contains_key(v) {
                    is_empty_response(r, 204)
                } else {
                    is_empty_response(r, 404)
                }
            },
        },
{
    let id = match TodoId::parse(id_text) {
        Some(id) => id,
        None => return empty_response(400),
    };
    if store.remove(id) {
        empty_response(204)
    } else {
        empty_response(404)
    }
}

} // verus!
