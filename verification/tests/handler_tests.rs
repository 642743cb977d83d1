use todo_service::error::{frame_body, FailureKind, ResponseError, StoreError, StoreFault};
use todo_service::handlers::{
    blocking_task, create_todo, delay, delete_todo, get_all_todos, get_config, get_todo,
    update_todo, world, Config, TaskOutcome,
};
use todo_service::todo::Todo;

fn sample(id: i32, title: &str, done: bool) -> Todo {
    Todo { id, title: title.to_string(), done, created_at: 1_700_000_000_000_000 }
}

fn fault(fault: StoreFault, detail: &str) -> StoreError {
    StoreError { fault, detail: detail.to_string() }
}

#[test]
fn world_greets() {
    assert_eq!(world(), "Hello, world!");
}

#[test]
fn delay_names_the_seconds_waited() {
    assert_eq!(delay(2), "Waited for 2 seconds");
    assert_eq!(delay(0), "Waited for 0 seconds");
    assert_eq!(delay(3600), "Waited for 3600 seconds");
}

#[test]
fn config_echo_interpolates_name_and_age() {
    let config = Config { name: "Ann".to_string(), age: 30 };
    assert_eq!(get_config(&config), "Hello, Ann! You are 30 years old.");
    let oldest = Config { name: String::new(), age: 255 };
    assert_eq!(get_config(&oldest), "Hello, ! You are 255 years old.");
}

#[test]
fn status_of_each_failure_kind() {
    assert_eq!(FailureKind::NotFound.status(), 404);
    assert_eq!(FailureKind::Validation.status(), 400);
    assert_eq!(FailureKind::Conflict.status(), 409);
    assert_eq!(FailureKind::Internal.status(), 500);
    assert_eq!(FailureKind::TaskFailure.status(), 500);
}

#[test]
fn kind_of_each_store_fault() {
    assert_eq!(StoreFault::NoRow.kind(), FailureKind::NotFound);
    assert_eq!(StoreFault::ConstraintViolation.kind(), FailureKind::Conflict);
    assert_eq!(StoreFault::InvalidPayload.kind(), FailureKind::Validation);
    assert_eq!(StoreFault::Unavailable.kind(), FailureKind::Internal);
}

#[test]
fn plain_response_error_is_internal() {
    let e = ResponseError::new("boom".to_string());
    assert_eq!(e.kind, FailureKind::Internal);
    assert_eq!(e.status(), 500);
    assert_eq!(e.message(), "boom");
}

#[test]
fn response_error_keeps_kind_and_message() {
    let e = ResponseError::with_kind(FailureKind::Conflict, "taken".to_string());
    assert_eq!(e.kind, FailureKind::Conflict);
    assert_eq!(e.status(), 409);
    assert_eq!(e.message(), "taken");
}

#[test]
fn fetch_passes_the_row_through() {
    let r = get_todo(3, Ok(sample(3, "a", false)));
    assert_eq!(r, Ok(sample(3, "a", false)));
}

#[test]
fn fetch_of_a_missing_row_is_not_found() {
    let e = get_todo(5, Err(fault(StoreFault::NoRow, "NotFound"))).unwrap_err();
    assert_eq!(e.kind, FailureKind::NotFound);
    assert_eq!(e.status(), 404);
    assert_eq!(e.message, "Failed to fetch todo with id: 5, response: NotFound");
}

#[test]
fn fetch_with_a_broken_store_is_internal() {
    let e = get_todo(-7, Err(fault(StoreFault::Unavailable, "connection refused"))).unwrap_err();
    assert_eq!(e.kind, FailureKind::Internal);
    assert_eq!(e.status(), 500);
    assert_eq!(e.message, "Failed to fetch todo with id: -7, response: connection refused");
}

#[test]
fn listing_passes_the_rows_through() {
    let rows = vec![sample(1, "a", false), sample(2, "b", true)];
    let r = get_all_todos(Ok(rows));
    assert_eq!(r, Ok(vec![sample(1, "a", false), sample(2, "b", true)]));
    assert_eq!(get_all_todos(Ok(Vec::new())), Ok(Vec::new()));
}

#[test]
fn listing_failure_is_mapped() {
    let e = get_all_todos(Err(fault(StoreFault::Unavailable, "timeout"))).unwrap_err();
    assert_eq!(e.kind, FailureKind::Internal);
    assert_eq!(e.message, "Failed to fetch todos, response: timeout");
}

#[test]
fn creation_passes_the_row_through() {
    let r = create_todo(Ok(sample(9, "new", false)));
    assert_eq!(r, Ok(sample(9, "new", false)));
}

#[test]
fn creation_conflict_and_validation() {
    let e = create_todo(Err(fault(StoreFault::ConstraintViolation, "duplicate key"))).unwrap_err();
    assert_eq!(e.kind, FailureKind::Conflict);
    assert_eq!(e.status(), 409);
    assert_eq!(e.message, "Failed to create todo, response: duplicate key");
    let e = create_todo(Err(fault(StoreFault::InvalidPayload, "bad title"))).unwrap_err();
    assert_eq!(e.kind, FailureKind::Validation);
    assert_eq!(e.status(), 400);
    assert_eq!(e.message, "Failed to create todo, response: bad title");
}

#[test]
fn delete_of_one_row_succeeds() {
    assert_eq!(delete_todo(4, Ok(1)), Ok(()));
}

#[test]
fn delete_of_no_row_is_not_found() {
    let e = delete_todo(4, Ok(0)).unwrap_err();
    assert_eq!(e.kind, FailureKind::NotFound);
    assert_eq!(e.status(), 404);
    assert_eq!(e.message, "Failed to delete todo 4, response: \"NotFound\"");
}

#[test]
fn delete_of_several_rows_is_internal() {
    let e = delete_todo(4, Ok(2)).unwrap_err();
    assert_eq!(e.kind, FailureKind::Internal);
    assert_eq!(e.status(), 500);
    assert_eq!(e.message, "Failed to delete todo 4, response: \"???\"");
    let e = delete_todo(4, Ok(usize::MAX)).unwrap_err();
    assert_eq!(e.kind, FailureKind::Internal);
}

#[test]
fn delete_with_a_store_error_is_mapped() {
    let e = delete_todo(12, Err(fault(StoreFault::Unavailable, "broken pipe"))).unwrap_err();
    assert_eq!(e.kind, FailureKind::Internal);
    assert_eq!(e.message, "Failed to delete todo 12, response: broken pipe");
}

#[test]
fn update_of_one_row_succeeds() {
    assert_eq!(update_todo(4, Ok(1)), Ok(()));
}

#[test]
fn update_of_no_row_is_not_found() {
    let e = update_todo(8, Ok(0)).unwrap_err();
    assert_eq!(e.kind, FailureKind::NotFound);
    assert_eq!(e.status(), 404);
    assert_eq!(e.message, "Failed to update todo 8, response: \"NotFound\"");
}

#[test]
fn update_of_several_rows_is_internal() {
    let e = update_todo(8, Ok(3)).unwrap_err();
    assert_eq!(e.kind, FailureKind::Internal);
    assert_eq!(e.status(), 500);
    assert_eq!(e.message, "Failed to update todo 8, response: \"???\"");
}

#[test]
fn update_with_a_store_error_is_mapped() {
    let e = update_todo(-2147483648, Err(fault(StoreFault::ConstraintViolation, "too long")))
        .unwrap_err();
    assert_eq!(e.kind, FailureKind::Conflict);
    assert_eq!(e.message, "Failed to update todo -2147483648, response: too long");
}

#[test]
fn blocking_read_returns_the_bytes() {
    assert_eq!(blocking_task(TaskOutcome::Finished(vec![1, 2, 3])), Ok(vec![1, 2, 3]));
    assert_eq!(blocking_task(TaskOutcome::Finished(Vec::new())), Ok(Vec::new()));
}

#[test]
fn missing_data_file_is_a_server_error() {
    let outcome = TaskOutcome::ReadFailed("No such file or directory (os error 2)".to_string());
    let e = blocking_task(outcome).unwrap_err();
    assert_eq!(e.kind, FailureKind::Internal);
    assert_eq!(e.status(), 500);
    assert_eq!(e.message, "File could not be read: No such file or directory (os error 2)");
}

#[test]
fn aborted_task_is_a_distinct_server_error() {
    let e = blocking_task(TaskOutcome::Aborted("task 7 panicked".to_string())).unwrap_err();
    assert_eq!(e.kind, FailureKind::TaskFailure);
    assert_eq!(e.status(), 500);
    assert_eq!(e.message, "Task did not complete: task 7 panicked");
    let read = blocking_task(TaskOutcome::ReadFailed("task 7 panicked".to_string())).unwrap_err();
    assert_ne!(read.kind, e.kind);
    assert_ne!(read.message, e.message);
}

#[test]
fn body_is_a_json_object_with_the_message() {
    let e = ResponseError::with_kind(FailureKind::NotFound, "gone".to_string());
    assert_eq!(e.body(), "{\"message\":\"gone\"}");
    let empty = ResponseError::new(String::new());
    assert_eq!(empty.body(), "{\"message\":\"\"}");
}

#[test]
fn body_escapes_the_message() {
    let e = ResponseError::new("say \"hi\"\n\\".to_string());
    assert_eq!(e.body(), "{\"message\":\"say \\\"hi\\\"\\n\\\\\"}");
    let e = delete_todo(4, Ok(0)).unwrap_err();
    assert_eq!(e.body(), "{\"message\":\"Failed to delete todo 4, response: \\\"NotFound\\\"\"}");
}

#[test]
fn frame_puts_the_encoded_text_under_message() {
    assert_eq!(frame_body("\"x\""), "{\"message\":\"x\"}");
    assert_eq!(frame_body(""), "{\"message\":}");
}
