use todo_service::api::error::ApiError;
use todo_service::api::handler::{create, delete, get_by_id, list, not_found_error, update,
    validate_title};
use todo_service::api::request::{CreateTodoRequest, UpdateTodoRequest};
use todo_service::api::response::ErrorResponse;
use todo_service::api::todo::Todo;
use todo_service::store::repository::TodoStore;

const T1: &str = "2024-01-01T00:00:00";
const T2: &str = "2024-01-02T00:00:00";

#[test]
fn response_accessors_return_expected_values() {
    let resp = ErrorResponse::new("bad_request", "Invalid input");
    assert_eq!(resp.error(), "bad_request");
    assert_eq!(resp.message(), "Invalid input");
}

#[test]
fn todo_accessors_return_expected_values() {
    let todo = Todo::new(
        3,
        "Accessor".to_string(),
        Some("desc".to_string()),
        false,
        "2024-01-01T00:00:00".to_string(),
        "2024-01-02T00:00:00".to_string(),
    );
    assert_eq!(todo.id(), 3);
    assert_eq!(todo.title(), "Accessor");
    assert_eq!(todo.description(), Some("desc"));
    assert!(!todo.completed());
    assert_eq!(todo.created_at(), "2024-01-01T00:00:00");
    assert_eq!(todo.updated_at(), "2024-01-02T00:00:00");
}

#[test]
fn request_accessors_return_expected_values() {
    let create_req = CreateTodoRequest::new("Buy milk".to_string(), Some("From the store".to_string()));
    assert_eq!(create_req.title(), "Buy milk");
    assert_eq!(create_req.description(), Some("From the store"));
    let update_req = UpdateTodoRequest::new("Updated".to_string(), None, true);
    assert_eq!(update_req.title(), "Updated");
    assert!(update_req.description().is_none());
    assert!(update_req.completed());
}

#[test]
fn display_not_found() {
    let err = ApiError::NotFound("Todo not found".to_string());
    assert_eq!(err.display_string(), "Not found: Todo not found");
}

#[test]
fn display_bad_request() {
    let err = ApiError::BadRequest("Invalid input".to_string());
    assert_eq!(err.display_string(), "Bad request: Invalid input");
}

#[test]
fn display_internal() {
    let err = ApiError::Internal("Something broke".to_string());
    assert_eq!(err.display_string(), "Internal error: Something broke");
}

#[test]
fn display_validation() {
    let err = ApiError::Validation("Title required".to_string());
    assert_eq!(err.display_string(), "Validation error: Title required");
}

#[test]
fn display_database() {
    let err = ApiError::Database("disk full".to_string());
    assert_eq!(err.display_string(), "Database error: disk full");
}

#[test]
fn debug_not_found() {
    let err = ApiError::NotFound("missing".to_string());
    let debug = format!("{:?}", err);
    assert!(debug.contains("NotFound"));
    assert!(debug.contains("missing"));
}

#[test]
fn into_response_not_found_returns_404() {
    let err = ApiError::NotFound("Todo not found".to_string());
    let (status, body) = err.response_parts();
    assert_eq!(status, 404);
    assert_eq!(body.error(), "not_found");
    assert_eq!(body.message(), "Todo not found");
}

#[test]
fn into_response_bad_request_returns_400() {
    let err = ApiError::BadRequest("Bad".to_string());
    let (status, body) = err.response_parts();
    assert_eq!(status, 400);
    assert_eq!(body.error(), "bad_request");
    assert_eq!(body.message(), "Bad");
}

#[test]
fn into_response_internal_returns_500() {
    let err = ApiError::Internal("Oops".to_string());
    let (status, body) = err.response_parts();
    assert_eq!(status, 500);
    assert_eq!(body.error(), "internal");
    assert_eq!(body.message(), "Oops");
}

#[test]
fn into_response_validation_returns_422() {
    let err = ApiError::Validation("Invalid".to_string());
    let (status, body) = err.response_parts();
    assert_eq!(status, 422);
    assert_eq!(body.error(), "validation");
    assert_eq!(body.message(), "Invalid");
}

#[test]
fn into_response_database_hides_the_store_message() {
    let err = ApiError::Database("UNIQUE constraint failed".to_string());
    let (status, body) = err.response_parts();
    assert_eq!(status, 500);
    assert_eq!(body.error(), "database");
    assert_eq!(body.message(), "A database error occurred");
}

#[test]
fn validate_title_accepts_ordinary_text() {
    assert!(validate_title("Buy milk").is_ok());
}

#[test]
fn validate_title_rejects_empty_and_whitespace() {
    for bad in ["", " ", "  \t ", "\u{00A0}\u{3000}", "\n\r"] {
        let err = validate_title(bad).unwrap_err();
        assert!(matches!(err, ApiError::Validation(_)));
        assert_eq!(err.status_code(), 422);
    }
}

#[test]
fn not_found_error_names_the_id() {
    let err = not_found_error(42);
    let (status, body) = err.response_parts();
    assert_eq!(status, 404);
    assert_eq!(body.message(), "Todo with id 42 not found");
    let err = not_found_error(-7);
    let (_, body) = err.response_parts();
    assert_eq!(body.message(), "Todo with id -7 not found");
}

#[test]
fn scenario_create_returns_full_record() {
    let mut store = TodoStore::new();
    let body = CreateTodoRequest::new("Buy milk".to_string(), None);
    let (status, todo) = create(&mut store, &body, T1).unwrap();
    assert_eq!(status, 201);
    assert_eq!(todo.id(), 1);
    assert_eq!(todo.title(), "Buy milk");
    assert!(todo.description().is_none());
    assert!(!todo.completed());
    assert_eq!(todo.created_at(), todo.updated_at());
}

#[test]
fn scenario_update_reflects_completed_and_later_timestamp() {
    let mut store = TodoStore::new();
    let body = CreateTodoRequest::new("Buy milk".to_string(), None);
    let (_, created) = create(&mut store, &body, T1).unwrap();
    let change = UpdateTodoRequest::new("Buy milk".to_string(), None, true);
    let updated = update(&mut store, 1, &change, T2).unwrap();
    assert!(updated.completed());
    assert_eq!(updated.updated_at(), T2);
    assert!(updated.updated_at() > created.updated_at());
    assert_eq!(updated.created_at(), created.created_at());
}

#[test]
fn scenario_delete_then_get_reports_not_found() {
    let mut store = TodoStore::new();
    let body = CreateTodoRequest::new("Buy milk".to_string(), None);
    create(&mut store, &body, T1).unwrap();
    let status = delete(&mut store, 1).unwrap();
    assert_eq!(status, 204);
    let err = get_by_id(&store, 1).unwrap_err();
    let (status, body) = err.response_parts();
    assert_eq!(status, 404);
    assert_eq!(body.error(), "not_found");
    assert_eq!(body.message(), "Todo with id 1 not found");
}

#[test]
fn scenario_create_empty_title_rejected() {
    let mut store = TodoStore::new();
    let body = CreateTodoRequest::new("".to_string(), None);
    let err = create(&mut store, &body, T1).unwrap_err();
    let (status, payload) = err.response_parts();
    assert_eq!(status, 422);
    assert_eq!(payload.error(), "validation");
    assert_eq!(payload.message(), "Title must not be empty");
    assert!(list(&store).unwrap().is_empty());
}

#[test]
fn scenario_update_empty_title_rejected() {
    let mut store = TodoStore::new();
    let body = CreateTodoRequest::new("Keep me".to_string(), None);
    create(&mut store, &body, T1).unwrap();
    let change = UpdateTodoRequest::new("   ".to_string(), Some("d".to_string()), true);
    let err = update(&mut store, 1, &change, T2).unwrap_err();
    assert_eq!(err.status_code(), 422);
    let kept = get_by_id(&store, 1).unwrap();
    assert_eq!(kept.title(), "Keep me");
    assert!(!kept.completed());
}

#[test]
fn scenario_absent_ids_get_404_from_every_handler() {
    let mut store = TodoStore::new();
    let err = get_by_id(&store, 999).unwrap_err();
    assert_eq!(err.status_code(), 404);
    let change = UpdateTodoRequest::new("Nope".to_string(), None, false);
    let err = update(&mut store, 999, &change, T1).unwrap_err();
    assert_eq!(err.status_code(), 404);
    let err = delete(&mut store, 999).unwrap_err();
    assert_eq!(err.status_code(), 404);
}

#[test]
fn scenario_list_returns_records_in_id_order() {
    let mut store = TodoStore::new();
    for title in ["one", "two", "three"] {
        let body = CreateTodoRequest::new(title.to_string(), None);
        create(&mut store, &body, T1).unwrap();
    }
    let change = UpdateTodoRequest::new("two again".to_string(), None, true);
    update(&mut store, 2, &change, T2).unwrap();
    let todos = list(&store).unwrap();
    let ids: Vec<i64> = todos.iter().map(|t| t.id()).collect();
    assert_eq!(ids, vec![1, 2, 3]);
}
