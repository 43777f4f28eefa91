use todo_core::{ApiError, CreateTodo, HttpMethod, HttpResponse, TodoClient, TodoId, UpdateTodo};

fn client() -> TodoClient {
    TodoClient::new("http://localhost:3000")
}

fn response(status: u16, body: &str) -> HttpResponse {
    HttpResponse {
        status,
        headers: Vec::new(),
        body: body.to_string(),
    }
}

/// A fresh version-4 identifier, as the demo server draws one.
fn random_id() -> TodoId {
    TodoId(uuid::Uuid::new_v4().as_u128())
}

#[test]
fn build_list_todos_produces_correct_request() {
    let req = client().build_list_todos();
    assert_eq!(req.method, HttpMethod::Get);
    assert_eq!(req.path, "http://localhost:3000/items");
    assert!(req.body.is_none());
    assert!(req.headers.is_empty());
}

#[test]
fn build_get_todo_produces_correct_request() {
    let id = TodoId::nil();
    let req = client().build_get_todo(id);
    assert_eq!(req.method, HttpMethod::Get);
    assert_eq!(
        req.path,
        "http://localhost:3000/items/00000000-0000-0000-0000-000000000000"
    );
    assert!(req.body.is_none());
}

#[test]
fn build_create_todo_produces_correct_request() {
    let input = CreateTodo {
        title: "Buy milk".to_string(),
        completed: false,
    };
    let req = client().build_create_todo(&input).unwrap();
    assert_eq!(req.method, HttpMethod::Post);
    assert_eq!(req.path, "http://localhost:3000/items");
    assert_eq!(
        req.headers,
        vec![("content-type".to_string(), "application/json".to_string())]
    );
    let body: serde_json::Value = serde_json::from_str(req.body.as_deref().unwrap()).unwrap();
    assert_eq!(body["title"], "Buy milk");
    assert_eq!(body["completed"], false);
}

#[test]
fn build_update_todo_produces_correct_request() {
    let id = TodoId::nil();
    let input = UpdateTodo {
        title: Some("Updated".to_string()),
        completed: None,
    };
    let req = client().build_update_todo(id, &input).unwrap();
    assert_eq!(req.method, HttpMethod::Put);
    let body: serde_json::Value = serde_json::from_str(req.body.as_deref().unwrap()).unwrap();
    assert_eq!(body["title"], "Updated");
    assert!(body.get("completed").is_none());
}

#[test]
fn build_delete_todo_produces_correct_request() {
    let id = TodoId::nil();
    let req = client().build_delete_todo(id);
    assert_eq!(req.method, HttpMethod::Delete);
    assert!(req.body.is_none());
}

#[test]
fn parse_list_todos_success() {
    let r = response(
        200,
        r#"[{"id":"00000000-0000-0000-0000-000000000001","title":"Test","completed":false}]"#,
    );
    let todos = client().parse_list_todos(r).unwrap();
    assert_eq!(todos.len(), 1);
    assert_eq!(todos[0].title, "Test");
}

#[test]
fn client_parse_get_todo_not_found() {
    let err = client().parse_get_todo(response(404, "")).unwrap_err();
    assert!(matches!(err, ApiError::NotFound));
}

#[test]
fn client_parse_create_todo_success() {
    let r = response(
        201,
        r#"{"id":"00000000-0000-0000-0000-000000000001","title":"New","completed":false}"#,
    );
    let todo = client().parse_create_todo(r).unwrap();
    assert_eq!(todo.title, "New");
}

#[test]
fn parse_create_todo_wrong_status() {
    let err = client()
        .parse_create_todo(response(500, "internal error"))
        .unwrap_err();
    assert!(matches!(err, ApiError::HttpError { status: 500, .. }));
}

#[test]
fn client_parse_update_todo_success() {
    let r = response(
        200,
        r#"{"id":"00000000-0000-0000-0000-000000000001","title":"Updated","completed":true}"#,
    );
    let todo = client().parse_update_todo(r).unwrap();
    assert_eq!(todo.title, "Updated");
    assert!(todo.completed);
}

#[test]
fn client_parse_delete_todo_success() {
    assert!(client().parse_delete_todo(response(204, "")).is_ok());
}

#[test]
fn client_parse_delete_todo_not_found() {
    let err = client().parse_delete_todo(response(404, "")).unwrap_err();
    assert!(matches!(err, ApiError::NotFound));
}

#[test]
fn trailing_slash_is_stripped() {
    let client = TodoClient::new("http://localhost:3000/");
    let req = client.build_list_todos();
    assert_eq!(req.path, "http://localhost:3000/items");
}

#[test]
fn parse_list_todos_bad_json() {
    let err = client()
        .parse_list_todos(response(200, "not json"))
        .unwrap_err();
    assert!(matches!(err, ApiError::DeserializationError(_)));
}

// Further cases.

#[test]
fn many_trailing_slashes_give_the_same_list_path() {
    for base in ["http://localhost:3000", "http://localhost:3000/", "http://localhost:3000///"] {
        assert_eq!(
            TodoClient::new(base).build_list_todos().path,
            "http://localhost:3000/items"
        );
    }
}

#[test]
fn get_not_found_ignores_malformed_body() {
    for body in ["", "not json", "{\"id\":", "[]"] {
        let err = client().parse_get_todo(response(404, body)).unwrap_err();
        assert!(matches!(err, ApiError::NotFound));
    }
}

#[test]
fn create_body_at_status_200_is_an_http_error() {
    let body = r#"{"id":"00000000-0000-0000-0000-000000000001","title":"New","completed":false}"#;
    let ok = client().parse_create_todo(response(201, body)).unwrap();
    assert_eq!(ok.title, "New");
    assert!(!ok.completed);
    assert_eq!(ok.id, TodoId(1));
    let err = client().parse_create_todo(response(200, body)).unwrap_err();
    match err {
        ApiError::HttpError { status, body: b } => {
            assert_eq!(status, 200);
            assert_eq!(b, body);
        }
        other => panic!("unexpected {other:?}"),
    }
}

#[test]
fn update_serialises_title_only_exactly() {
    let input = UpdateTodo {
        title: Some("x".to_string()),
        completed: None,
    };
    let req = client().build_update_todo(TodoId::nil(), &input).unwrap();
    assert_eq!(req.body.as_deref(), Some(r#"{"title":"x"}"#));
}

#[test]
fn update_serialises_both_and_neither() {
    let both = UpdateTodo {
        title: Some("a\"b".to_string()),
        completed: Some(true),
    };
    let req = client().build_update_todo(TodoId::nil(), &both).unwrap();
    assert_eq!(req.body.as_deref(), Some(r#"{"title":"a\"b","completed":true}"#));
    let neither = UpdateTodo {
        title: None,
        completed: None,
    };
    let req = client().build_update_todo(TodoId::nil(), &neither).unwrap();
    assert_eq!(req.body.as_deref(), Some("{}"));
}

#[test]
fn create_body_escapes_control_characters() {
    let input = CreateTodo {
        title: "tab\there\u{1}".to_string(),
        completed: true,
    };
    let req = client().build_create_todo(&input).unwrap();
    assert_eq!(
        req.body.as_deref(),
        Some(r#"{"title":"tab\there\u0001","completed":true}"#)
    );
}

#[test]
fn item_path_uses_canonical_lower_case_form() {
    let id = TodoId(0x0123_4567_89AB_CDEF_0123_4567_89AB_CDEF);
    let req = client().build_delete_todo(id);
    assert_eq!(
        req.path,
        "http://localhost:3000/items/01234567-89ab-cdef-0123-456789abcdef"
    );
}

#[test]
fn parse_get_rejects_wrong_member_types() {
    let cases = [
        r#"{"id":"00000000-0000-0000-0000-000000000001","title":5,"completed":false}"#,
        r#"{"id":"00000000-0000-0000-0000-000000000001","title":"T","completed":"no"}"#,
        r#"{"id":"not-a-uuid","title":"T","completed":false}"#,
        r#"{"title":"T","completed":false}"#,
        r#"[]"#,
    ];
    for body in cases {
        let err = client().parse_get_todo(response(200, body)).unwrap_err();
        assert!(matches!(err, ApiError::DeserializationError(_)), "{body}");
    }
}

#[test]
fn parse_get_ignores_unknown_members_and_reads_other_uuid_forms() {
    let body = r#"{"extra":[1,2],"completed":true,"title":"T","id":"{00000000-0000-0000-0000-0000000000FF}"}"#;
    let todo = client().parse_get_todo(response(200, body)).unwrap();
    assert_eq!(todo.id, TodoId(255));
    assert_eq!(todo.title, "T");
    assert!(todo.completed);
}

#[test]
fn other_status_is_an_http_error_with_body() {
    let err = client().parse_list_todos(response(503, "busy")).unwrap_err();
    match err {
        ApiError::HttpError { status, body } => {
            assert_eq!(status, 503);
            assert_eq!(body, "busy");
        }
        other => panic!("unexpected {other:?}"),
    }
    let err = client().parse_delete_todo(response(200, "")).unwrap_err();
    assert!(matches!(err, ApiError::HttpError { status: 200, .. }));
}

#[test]
fn error_messages() {
    assert_eq!(ApiError::NotFound.message(), "resource not found");
    let e = ApiError::HttpError {
        status: 500,
        body: "internal error".to_string(),
    };
    assert_eq!(e.message(), "HTTP 500: internal error");
    assert_eq!(
        ApiError::DeserializationError("bad".to_string()).message(),
        "deserialization failed: bad"
    );
    assert_eq!(
        ApiError::SerializationError("worse".to_string()).message(),
        "serialization failed: worse"
    );
}

#[test]
fn identifiers_parse_and_print() {
    let id = TodoId::parse("00000000-0000-0000-0000-000000000001").unwrap();
    assert_eq!(id, TodoId(1));
    assert_eq!(id.to_text(), "00000000-0000-0000-0000-000000000001");
    assert!(TodoId::parse("not-a-uuid").is_none());
    let r = random_id();
    assert_ne!(r, TodoId::nil());
    assert_eq!((r.0 >> 76) & 0xF, 4);
}

#[test]
fn repeated_member_keeps_last_value() {
    let body = r#"{"id":"00000000-0000-0000-0000-000000000001","title":"a","title":"b","completed":false}"#;
    let todo = client().parse_get_todo(response(200, body)).unwrap();
    assert_eq!(todo.title, "b");
}
