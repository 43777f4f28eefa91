use todo_core::json::{decode_create, decode_todo, decode_update, encode_todo};
use todo_core::server::{handle_create, handle_delete, handle_get, handle_list, handle_update};
use todo_core::store::TodoStore;
use todo_core::{ApiError, CreateTodo, HttpMethod, HttpRequest, HttpResponse, Todo, TodoClient, TodoId, UpdateTodo};

/// Routes a request to the in-process server, as the network would.
fn execute(store: &mut TodoStore, req: HttpRequest) -> HttpResponse {
    let rest = req.path.strip_prefix("http://test/items").unwrap();
    let body = req.body.as_deref().unwrap_or("");
    match (req.method, rest.strip_prefix('/')) {
        (HttpMethod::Get, None) => handle_list(store),
        (HttpMethod::Post, None) => handle_create(store, body, random_id()),
        (HttpMethod::Get, Some(id)) => handle_get(store, id),
        (HttpMethod::Put, Some(id)) => handle_update(store, id, body),
        (HttpMethod::Delete, Some(id)) => handle_delete(store, id),
        _ => panic!("no route for {}", req.path),
    }
}

fn read_todo(resp: &HttpResponse) -> Todo {
    decode_todo(&resp.body).unwrap()
}

/// A fresh version-4 identifier, as the demo server draws one.
fn random_id() -> TodoId {
    TodoId(uuid::Uuid::new_v4().as_u128())
}

#[test]
fn todo_serializes_to_json() {
    let todo = Todo {
        id: TodoId::nil(),
        title: "Test".to_string(),
        completed: false,
    };
    let json: serde_json::Value = serde_json::from_str(&encode_todo(&todo).unwrap()).unwrap();
    assert_eq!(json["id"], "00000000-0000-0000-0000-000000000000");
    assert_eq!(json["title"], "Test");
    assert_eq!(json["completed"], false);
}

#[test]
fn todo_roundtrips_through_json() {
    let todo = Todo {
        id: random_id(),
        title: "Roundtrip".to_string(),
        completed: true,
    };
    let json = encode_todo(&todo).unwrap();
    let back = decode_todo(&json).unwrap();
    assert_eq!(back.id, todo.id);
    assert_eq!(back.title, todo.title);
    assert_eq!(back.completed, todo.completed);
}

#[test]
fn create_todo_defaults_completed_to_false() {
    let input = decode_create(r#"{"title":"No completed field"}"#).unwrap();
    assert_eq!(input.title, "No completed field");
    assert!(!input.completed);
}

#[test]
fn create_todo_accepts_explicit_completed() {
    let input = decode_create(r#"{"title":"Done","completed":true}"#).unwrap();
    assert!(input.completed);
}

#[test]
fn create_todo_rejects_missing_title() {
    let result = decode_create(r#"{"completed":true}"#);
    assert!(result.is_err());
}

#[test]
fn update_todo_all_fields_optional() {
    let input = decode_update(r#"{}"#).unwrap();
    assert!(input.title.is_none());
    assert!(input.completed.is_none());
}

#[test]
fn update_todo_partial_fields() {
    let input = decode_update(r#"{"title":"New title"}"#).unwrap();
    assert_eq!(input.title.as_deref(), Some("New title"));
    assert!(input.completed.is_none());
}

#[test]
fn list_todos_empty() {
    let store = TodoStore::new();
    let resp = handle_list(&store);
    assert_eq!(resp.status, 200);
    let todos: Vec<serde_json::Value> = serde_json::from_str(&resp.body).unwrap();
    assert!(todos.is_empty());
}

#[test]
fn create_todo_returns_201() {
    let mut store = TodoStore::new();
    let resp = handle_create(&mut store, r#"{"title":"Buy milk"}"#, random_id());
    assert_eq!(resp.status, 201);
    let todo = read_todo(&resp);
    assert_eq!(todo.title, "Buy milk");
    assert!(!todo.completed);
}

#[test]
fn create_todo_with_completed_true() {
    let mut store = TodoStore::new();
    let resp = handle_create(
        &mut store,
        r#"{"title":"Already done","completed":true}"#,
        random_id(),
    );
    assert_eq!(resp.status, 201);
    assert!(read_todo(&resp).completed);
}

#[test]
fn create_todo_malformed_json_returns_422() {
    let mut store = TodoStore::new();
    let resp = handle_create(&mut store, r#"{"not_title":1}"#, random_id());
    assert_eq!(resp.status, 422);
}

#[test]
fn get_todo_not_found() {
    let store = TodoStore::new();
    let resp = handle_get(&store, "00000000-0000-0000-0000-000000000000");
    assert_eq!(resp.status, 404);
}

#[test]
fn get_todo_bad_uuid_returns_400() {
    let store = TodoStore::new();
    let resp = handle_get(&store, "not-a-uuid");
    assert_eq!(resp.status, 400);
}

#[test]
fn update_todo_not_found() {
    let mut store = TodoStore::new();
    let resp = handle_update(
        &mut store,
        "00000000-0000-0000-0000-000000000000",
        r#"{"title":"Nope"}"#,
    );
    assert_eq!(resp.status, 404);
}

#[test]
fn delete_todo_not_found() {
    let mut store = TodoStore::new();
    let resp = handle_delete(&mut store, "00000000-0000-0000-0000-000000000000");
    assert_eq!(resp.status, 404);
}

#[test]
fn api_crud_lifecycle() {
    let mut store = TodoStore::new();

    let resp = handle_create(&mut store, r#"{"title":"Walk dog"}"#, random_id());
    assert_eq!(resp.status, 201);
    let created = read_todo(&resp);
    assert_eq!(created.title, "Walk dog");
    assert!(!created.completed);
    let id = created.id.to_text();

    let resp = handle_list(&store);
    assert_eq!(resp.status, 200);
    let todos: Vec<serde_json::Value> = serde_json::from_str(&resp.body).unwrap();
    assert_eq!(todos.len(), 1);
    assert_eq!(todos[0]["id"], id.as_str());

    let resp = handle_get(&store, &id);
    assert_eq!(resp.status, 200);
    let fetched = read_todo(&resp);
    assert_eq!(fetched.id, created.id);
    assert_eq!(fetched.title, "Walk dog");

    let resp = handle_update(&mut store, &id, r#"{"completed":true}"#);
    assert_eq!(resp.status, 200);
    let updated = read_todo(&resp);
    assert_eq!(updated.title, "Walk dog");
    assert!(updated.completed);

    let resp = handle_update(&mut store, &id, r#"{"title":"Walk cat"}"#);
    assert_eq!(resp.status, 200);
    let updated = read_todo(&resp);
    assert_eq!(updated.title, "Walk cat");
    assert!(updated.completed);

    let resp = handle_delete(&mut store, &id);
    assert_eq!(resp.status, 204);
    assert!(resp.body.is_empty());

    let resp = handle_get(&store, &id);
    assert_eq!(resp.status, 404);
}

#[test]
fn integration_crud_lifecycle() {
    let mut store = TodoStore::new();
    let client = TodoClient::new("http://test");

    let req = client.build_list_todos();
    let todos = client.parse_list_todos(execute(&mut store, req)).unwrap();
    assert!(todos.is_empty(), "expected empty list");

    let create_input = CreateTodo {
        title: "Integration test".to_string(),
        completed: false,
    };
    let req = client.build_create_todo(&create_input).unwrap();
    let created = client.parse_create_todo(execute(&mut store, req)).unwrap();
    assert_eq!(created.title, "Integration test");
    assert!(!created.completed);
    let id = created.id;

    let req = client.build_get_todo(id);
    let fetched = client.parse_get_todo(execute(&mut store, req)).unwrap();
    assert_eq!(fetched, created);

    let update_input = UpdateTodo {
        title: Some("Updated title".to_string()),
        completed: None,
    };
    let req = client.build_update_todo(id, &update_input).unwrap();
    let updated = client.parse_update_todo(execute(&mut store, req)).unwrap();
    assert_eq!(updated.title, "Updated title");
    assert!(!updated.completed);

    let update_input = UpdateTodo {
        title: None,
        completed: Some(true),
    };
    let req = client.build_update_todo(id, &update_input).unwrap();
    let updated = client.parse_update_todo(execute(&mut store, req)).unwrap();
    assert_eq!(updated.title, "Updated title");
    assert!(updated.completed);

    let req = client.build_list_todos();
    let todos = client.parse_list_todos(execute(&mut store, req)).unwrap();
    assert_eq!(todos.len(), 1);

    let req = client.build_delete_todo(id);
    client.parse_delete_todo(execute(&mut store, req)).unwrap();

    let req = client.build_get_todo(id);
    let err = client.parse_get_todo(execute(&mut store, req)).unwrap_err();
    assert!(matches!(err, ApiError::NotFound));

    let req = client.build_delete_todo(id);
    let err = client.parse_delete_todo(execute(&mut store, req)).unwrap_err();
    assert!(matches!(err, ApiError::NotFound));

    let req = client.build_list_todos();
    let todos = client.parse_list_todos(execute(&mut store, req)).unwrap();
    assert!(todos.is_empty(), "expected empty list after delete");
}

// Further cases.

#[test]
fn create_round_trip_assigns_a_fresh_identifier() {
    let mut store = TodoStore::new();
    let client = TodoClient::new("http://test/");
    let input = CreateTodo {
        title: "Buy milk".to_string(),
        completed: false,
    };
    let req = client.build_create_todo(&input).unwrap();
    let created = client.parse_create_todo(execute(&mut store, req)).unwrap();
    assert_eq!(created.title, "Buy milk");
    assert!(!created.completed);
    assert_ne!(created.id, TodoId::nil());
}

#[test]
fn update_rejects_null_and_wrong_types() {
    let mut store = TodoStore::new();
    let id = TodoId(7);
    handle_create(&mut store, r#"{"title":"A"}"#, id);
    for body in [r#"{"title":null}"#, r#"{"completed":"yes"}"#, "[]"] {
        let resp = handle_update(&mut store, &id.to_text(), body);
        assert_eq!(resp.status, 422, "{body}");
    }
    for body in ["not json", r#"{"title":"B""#, ""] {
        let resp = handle_update(&mut store, &id.to_text(), body);
        assert_eq!(resp.status, 400, "{body}");
    }
    assert_eq!(handle_create(&mut store, "{", TodoId(8)).status, 400);
    assert_eq!(read_todo(&handle_get(&store, &id.to_text())).title, "A");
    assert_eq!(handle_update(&mut store, "nope", "{}").status, 400);
    assert_eq!(handle_delete(&mut store, "nope").status, 400);
}

#[test]
fn list_holds_every_item_once() {
    let mut store = TodoStore::new();
    handle_create(&mut store, r#"{"title":"one"}"#, TodoId(2));
    handle_create(&mut store, r#"{"title":"two","completed":true}"#, TodoId(1));
    let resp = handle_list(&store);
    assert_eq!(resp.headers, vec![("content-type".to_string(), "application/json".to_string())]);
    let one = r#"{"id":"00000000-0000-0000-0000-000000000002","title":"one","completed":false}"#;
    let two = r#"{"id":"00000000-0000-0000-0000-000000000001","title":"two","completed":true}"#;
    let either = [format!("[{one},{two}]"), format!("[{two},{one}]")];
    assert!(either.contains(&resp.body), "{}", resp.body);
}

#[test]
fn store_replaces_an_item_with_the_same_identifier() {
    let mut store = TodoStore::new();
    store.insert(Todo { id: TodoId(3), title: "a".to_string(), completed: false });
    store.insert(Todo { id: TodoId(3), title: "b".to_string(), completed: true });
    let items = store.list();
    assert_eq!(items.len(), 1);
    assert_eq!(items[0].title, "b");
    assert!(store.remove(TodoId(3)));
    assert!(!store.remove(TodoId(3)));
    assert!(store.get(TodoId(3)).is_none());
}
