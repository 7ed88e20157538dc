//! Tests of the email validator and of the task-record logic.

use todo_auth::common::{OptionalTodo, Todo};
use todo_auth::time::get_current_timestamp;
use todo_auth::todos::{assign_id, delete_todo_response, merge_todo, parse_bool, parse_i32,
    todo_deleted_message, todo_file_name, todo_from_row, todo_not_found_message,
    todo_saved_message, todos_from_rows, row_error_response, upload_error_message,
    upload_fields, RowError, TodoRow, UploadError};
use todo_auth::validators::is_email;

#[test]
fn rejects_plain_words() {
    assert!(!is_email("not-an-email"));
}

#[test]
fn accepts_dotted_subdomains() {
    assert!(is_email("a.b-c@sub.domain.com"));
}

#[test]
fn email_shape_edge_cases() {
    assert!(is_email("a@b.co"));
    assert!(is_email("a_b.c-d@x-y.org"));
    assert!(is_email("1@2.ab"));
    assert!(is_email("a@b.como"));

    assert!(!is_email(""));
    assert!(!is_email("@b.co"));
    assert!(!is_email("a@"));
    assert!(!is_email("a@b"));
    assert!(!is_email("a@b.c"));
    assert!(!is_email("a@b.comos"));
    assert!(!is_email("a@.co"));
    assert!(!is_email("a@b..co"));
    assert!(!is_email("a@b.co@c.co"));
    assert!(!is_email("a b@c.co"));
    assert!(!is_email("a@b.c-o"));
    assert!(!is_email("a@b.c0"));
    assert!(!is_email("a@b.co."));
}

#[test]
fn merge_keeps_stored_fields_where_patch_is_absent() {
    let current = Todo {
        id: Some(7),
        title: "old title".to_string(),
        description: "old description".to_string(),
        completed: false,
        user_id: 3,
    };
    let patch = OptionalTodo {
        id: None,
        title: Some("new title".to_string()),
        description: None,
        completed: Some(true),
        user_id: Some(99),
    };
    let merged = merge_todo(&current, &patch);
    assert_eq!(merged.id, Some(7));
    assert_eq!(merged.title, "new title");
    assert_eq!(merged.description, "old description");
    assert!(merged.completed);
    assert_eq!(merged.user_id, 3);
}

#[test]
fn merge_with_empty_patch_is_identity() {
    let current = Todo {
        id: Some(1),
        title: "t".to_string(),
        description: "d".to_string(),
        completed: true,
        user_id: 2,
    };
    let patch = OptionalTodo { id: None, title: None, description: None, completed: None, user_id: None };
    let merged = merge_todo(&current, &patch);
    assert_eq!(merged.title, "t");
    assert_eq!(merged.description, "d");
    assert!(merged.completed);
    assert_eq!(merged.user_id, 2);
}

#[test]
fn row_conversion_defaults_completed_and_requires_user_id() {
    let row = TodoRow {
        id: 5,
        title: "t".to_string(),
        description: "d".to_string(),
        completed: None,
        user_id: Some(2),
    };
    let todo = todo_from_row(&row).unwrap();
    assert_eq!(todo.id, Some(5));
    assert!(!todo.completed);
    assert_eq!(todo.user_id, 2);

    let bad = TodoRow {
        id: 6,
        title: "t".to_string(),
        description: "d".to_string(),
        completed: Some(true),
        user_id: None,
    };
    assert_eq!(todo_from_row(&bad).unwrap_err(), RowError::MissingUserId);
}

#[test]
fn rows_convert_in_order_or_fail_on_missing_owner() {
    let rows = vec![
        TodoRow { id: 1, title: "a".to_string(), description: "x".to_string(), completed: Some(true), user_id: Some(1) },
        TodoRow { id: 2, title: "b".to_string(), description: "y".to_string(), completed: None, user_id: Some(2) },
    ];
    let todos = todos_from_rows(&rows).unwrap();
    assert_eq!(todos.len(), 2);
    assert_eq!(todos[0].id, Some(1));
    assert!(todos[0].completed);
    assert_eq!(todos[1].id, Some(2));
    assert!(!todos[1].completed);

    let rows = vec![
        TodoRow { id: 1, title: "a".to_string(), description: "x".to_string(), completed: None, user_id: Some(1) },
        TodoRow { id: 2, title: "b".to_string(), description: "y".to_string(), completed: None, user_id: None },
    ];
    assert_eq!(todos_from_rows(&rows).unwrap_err(), RowError::MissingUserId);
}

#[test]
fn bool_parsing_accepts_exactly_true_and_false() {
    assert_eq!(parse_bool("true"), Some(true));
    assert_eq!(parse_bool("false"), Some(false));
    assert_eq!(parse_bool("TRUE"), None);
    assert_eq!(parse_bool("1"), None);
    assert_eq!(parse_bool(""), None);
}

#[test]
fn integer_parsing_matches_the_standard_parser() {
    assert_eq!(parse_i32("123"), Some(123));
    assert_eq!(parse_i32("-123"), Some(-123));
    assert_eq!(parse_i32("+7"), Some(7));
    assert_eq!(parse_i32("0"), Some(0));
    assert_eq!(parse_i32("007"), Some(7));
    assert_eq!(parse_i32("2147483647"), Some(i32::MAX));
    assert_eq!(parse_i32("2147483648"), None);
    assert_eq!(parse_i32("-2147483648"), Some(i32::MIN));
    assert_eq!(parse_i32("-2147483649"), None);
    assert_eq!(parse_i32("99999999999999999999"), None);
    assert_eq!(parse_i32(""), None);
    assert_eq!(parse_i32("-"), None);
    assert_eq!(parse_i32("+"), None);
    assert_eq!(parse_i32("12a"), None);
    assert_eq!(parse_i32(" 12"), None);
    assert_eq!(parse_i32("--12"), None);
}

#[test]
fn upload_defaults_title_and_completed() {
    let todo = upload_fields(None, None, Some("3".to_string()), Some("content".to_string())).unwrap();
    assert_eq!(todo.id, None);
    assert_eq!(todo.title, "Untitled");
    assert_eq!(todo.description, "content");
    assert!(!todo.completed);
    assert_eq!(todo.user_id, 3);
}

#[test]
fn upload_parses_completed_leniently() {
    let todo = upload_fields(
        Some("shopping".to_string()),
        Some("true".to_string()),
        Some("4".to_string()),
        Some("milk".to_string()),
    ).unwrap();
    assert_eq!(todo.title, "shopping");
    assert!(todo.completed);

    let todo = upload_fields(None, Some("yes".to_string()), Some("4".to_string()), Some("d".to_string()))
        .unwrap();
    assert!(!todo.completed);
}

#[test]
fn upload_requires_numeric_user_id() {
    let missing = upload_fields(None, None, None, Some("d".to_string()));
    assert_eq!(missing.unwrap_err(), UploadError::InvalidUserId);
    let garbled = upload_fields(None, None, Some("abc".to_string()), Some("d".to_string()));
    assert_eq!(garbled.unwrap_err(), UploadError::InvalidUserId);
}

#[test]
fn upload_requires_a_file() {
    let no_file = upload_fields(Some("t".to_string()), None, Some("3".to_string()), None);
    assert_eq!(no_file.unwrap_err(), UploadError::MissingFile);
}

#[test]
fn upload_failures_map_to_their_messages() {
    assert_eq!(upload_error_message(&UploadError::MissingFile), "No file found in the request");
    assert_eq!(upload_error_message(&UploadError::InvalidUserId), "Invalid user_id");
}

#[test]
fn missing_owner_maps_to_400() {
    let (status, body) = row_error_response(&RowError::MissingUserId);
    assert_eq!(status, 400);
    assert_eq!(body.message, "User ID is missing");
}

#[test]
fn creation_returns_the_record_under_its_new_id() {
    let draft = Todo {
        id: None,
        title: "t".to_string(),
        description: "d".to_string(),
        completed: false,
        user_id: 9,
    };
    let stored = assign_id(&draft, 41);
    assert_eq!(stored.id, Some(41));
    assert_eq!(stored.title, "t");
    assert_eq!(stored.user_id, 9);
}

#[test]
fn deletion_outcome_follows_the_row_count() {
    let ok = delete_todo_response(1, "8").unwrap();
    assert_eq!(ok.message, "Todo with id 8 deleted successfully!");
    let (status, body) = delete_todo_response(0, "8").unwrap_err();
    assert_eq!(status, 404);
    assert_eq!(body.message, "Todo with id 8 not found");
}

#[test]
fn task_messages_interpolate_the_id() {
    assert_eq!(todo_not_found_message("12"), "Todo with id 12 not found");
    assert_eq!(todo_deleted_message("12"), "Todo with id 12 deleted successfully!");
    assert_eq!(todo_file_name("12"), "todo_12.txt");
    assert_eq!(todo_saved_message("12", "todo_12.txt"), "Todo with id 12 saved to todo_12.txt");
}

#[test]
fn clock_reads_a_plausible_unix_time() {
    let now = get_current_timestamp();
    assert!(now > 1_600_000_000);
}
