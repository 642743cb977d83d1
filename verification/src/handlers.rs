//! What each operation answers, given what its outside work came back with.
//!
//! The caller does the outside work (a query, a wait, a file read) and hands
//! the reply over; the functions here decide the response.

use crate::error::{FailureKind, ResponseError, StoreError};
use crate::text::{decimal, i32_to_decimal, signed_decimal, u64_to_decimal};
use crate::todo::Todo;
use vstd::prelude::*;
use vstd::string::*;

verus! {

/// The settings that the configuration echo reads.
#[derive(Debug, PartialEq, Eq)]
pub struct Config {
    pub name: String,
    pub age: u8,
}

/// How the background read of the data file ended.
#[derive(Debug, PartialEq, Eq)]
pub enum TaskOutcome {
    /// The task ran and read the file.
    Finished(Vec<u8>),
    /// The task ran and the read failed, with the I/O error's text.
    ReadFailed(String),
    /// The task was cancelled or panicked, with the runtime's text.
    Aborted(String),
}

/// The message of a failed fetch by id.
pub open spec fn fetch_message(id: int, detail: Seq<char>) -> Seq<char> {
    "Failed to fetch todo with id: "@ + signed_decimal(id) + ", response: "@ + detail
}

/// The message of a failed listing.
pub open spec fn list_message(detail: Seq<char>) -> Seq<char> {
    "Failed to fetch todos, response: "@ + detail
}

/// The message of a failed creation.
pub open spec fn create_message(detail: Seq<char>) -> Seq<char> {
    "Failed to create todo, response: "@ + detail
}

/// The message of a failed deletion.
pub open spec fn delete_message(id: int, detail: Seq<char>) -> Seq<char> {
    "Failed to delete todo "@ + signed_decimal(id) + ", response: "@ + detail
}

/// The message of a failed update.
pub open spec fn update_message(id: int, detail: Seq<char>) -> Seq<char> {
    "Failed to update todo "@ + signed_decimal(id) + ", response: "@ + detail
}

/// The message for a data file that could not be read.
pub open spec fn read_failed_message(detail: Seq<char>) -> Seq<char> {
    "File could not be read: "@ + detail
}

/// The message for a background task that did not complete.
pub open spec fn task_failed_message(detail: Seq<char>) -> Seq<char> {
    "Task did not complete: "@ + detail
}

/// The confirmation sent after a wait of `seconds`.
pub open spec fn delay_text(seconds: nat) -> Seq<char> {
    "Waited for "@ + decimal(seconds) + " seconds"@
}

/// The greeting built from the configured name and age.
pub open spec fn config_text(name: Seq<char>, age: nat) -> Seq<char> {
    "Hello, "@ + name + "! You are "@ + decimal(age) + " years old."@
}

/// The detail reported when an update or delete matched no row.
pub open spec fn no_row_detail() -> Seq<char> {
    "\"NotFound\""@
}

/// The detail reported when an update or delete matched several rows.
pub open spec fn many_rows_detail() -> Seq<char> {
    "\"???\""@
}

/// The kind of error that a count of affected rows other than one stands for.
pub open spec fn affected_kind(affected: nat) -> FailureKind
    recommends
        affected != 1,
{
    if affected == 0 {
        FailureKind::NotFound
    } else {
        FailureKind::Internal
    }
}

/// The detail that goes with a count of affected rows other than one.
pub open spec fn affected_detail(affected: nat) -> Seq<char>
    recommends
        affected != 1,
{
    if affected == 0 {
        no_row_detail()
    } else {
        many_rows_detail()
    }
}

/// The fixed greeting.
pub fn world() -> (r: &'static str)
    ensures
        r@ == "Hello, world!"@,
{
    "Hello, world!"
}

/// The confirmation that names the time waited. The caller waits first.
pub fn delay(seconds: u64) -> (r: String)
    ensures
        r@ == delay_text(seconds as nat),
{
    let digits = u64_to_decimal(seconds);
    String::from_str("Waited for ").concat(digits.as_str()).concat(" seconds")
}

/// The greeting for the configured name and age.
pub fn get_config(config: &Config) -> (r: String)
    ensures
        r@ == config_text(config.name@, config.age as nat),
{
    let digits = u64_to_decimal(config.age as u64);
    String::from_str("Hello, ").concat(config.name.as_str()).concat("! You are ").concat(
        digits.as_str(),
    ).concat(" years old.")
}

/// The response to the blocking file read: the bytes where the task read
/// them, an internal error where the read failed, a task failure where the
/// task itself did not complete.
pub fn blocking_task(outcome: TaskOutcome) -> (r: Result<Vec<u8>, ResponseError>)
    ensures
        match outcome {
            TaskOutcome::Finished(bytes) => r == Ok::<Vec<u8>, ResponseError>(bytes),
            TaskOutcome::ReadFailed(detail) => r matches Err(e) && e.kind == FailureKind::Internal
                && e.message@ == read_failed_message(detail@),
            TaskOutcome::Aborted(detail) => r matches Err(e) && e.kind == FailureKind::TaskFailure
                && e.message@ == task_failed_message(detail@),
        },
{
    match outcome {
        TaskOutcome::Finished(bytes) => Ok(bytes),
        TaskOutcome::ReadFailed(detail) => Err(
            ResponseError::with_kind(
                FailureKind::Internal,
                String::from_str("File could not be read: ").concat(detail.as_str()),
            ),
        ),
        TaskOutcome::Aborted(detail) => Err(
            ResponseError::with_kind(
                FailureKind::TaskFailure,
                String::from_str("Task did not complete: ").concat(detail.as_str()),
            ),
        ),
    }
}

/// The response to a fetch by id: the row where the store found one, else an
/// error of the kind that the store's fault stands for, with the id and the
/// store's detail in its message.
pub fn get_todo(id: i32, reply: Result<Todo, StoreError>) -> (r: Result<Todo, ResponseError>)
    ensures
        match reply {
            Ok(todo) => r == Ok::<Todo, ResponseError>(todo),
            Err(e) => r matches Err(x) && x.kind == e.fault.failure_kind() && x.message@
                == fetch_message(id as int, e.detail@),
        },
{
    match reply {
        Ok(todo) => Ok(todo),
        Err(e) => {
            let digits = i32_to_decimal(id);
            let message = String::from_str("Failed to fetch todo with id: ").concat(
                digits.as_str(),
            ).concat(", response: ").concat(e.detail.as_str());
            Err(ResponseError::with_kind(e.fault.kind(), message))
        },
    }
}

/// The response to a listing: the rows as the store gave them, else an error
/// of the kind that the store's fault stands for.
pub fn get_all_todos(reply: Result<Vec<Todo>, StoreError>) -> (r: Result<
    Vec<Todo>,
    ResponseError,
>)
    ensures
        match reply {
            Ok(todos) => r == Ok::<Vec<Todo>, ResponseError>(todos),
            Err(e) => r matches Err(x) && x.kind == e.fault.failure_kind() && x.message@
                == list_message(e.detail@),
        },
{
    match reply {
        Ok(todos) => Ok(todos),
        Err(e) => {
            let message = String::from_str("Failed to fetch todos, response: ").concat(
                e.detail.as_str(),
            );
            Err(ResponseError::with_kind(e.fault.kind(), message))
        },
    }
}

/// The response to a creation: the row as the store wrote it, else an error
/// of the kind that the store's fault stands for.
pub fn create_todo(reply: Result<Todo, StoreError>) -> (r: Result<Todo, ResponseError>)
    ensures
        match reply {
            Ok(todo) => r == Ok::<Todo, ResponseError>(todo),
            Err(e) => r matches Err(x) && x.kind == e.fault.failure_kind() && x.message@
                == create_message(e.detail@),
        },
{
    match reply {
        Ok(todo) => Ok(todo),
        Err(e) => {
            let message = String::from_str("Failed to create todo, response: ").concat(
                e.detail.as_str(),
            );
            Err(ResponseError::with_kind(e.fault.kind(), message))
        },
    }
}

/// The response to a deletion, from the number of rows that it removed:
/// success for exactly one, not found for none, an internal error for more.
pub fn delete_todo(id: i32, reply: Result<usize, StoreError>) -> (r: Result<(), ResponseError>)
    ensures
        match reply {
            Ok(affected) => if affected == 1 {
                r is Ok
            } else {
                r matches Err(x) && x.kind == affected_kind(affected as nat) && x.message@
                    == delete_message(id as int, affected_detail(affected as nat))
            },
            Err(e) => r matches Err(x) && x.kind == e.fault.failure_kind() && x.message@
                == delete_message(id as int, e.detail@),
        },
{
    let prefix = String::from_str("Failed to delete todo ").concat(
        i32_to_decimal(id).as_str(),
    ).concat(", response: ");
    match reply {
        Ok(affected) => {
            if affected == 1 {
                Ok(())
            } else if affected == 0 {
                Err(ResponseError::with_kind(FailureKind::NotFound, prefix.concat("\"NotFound\"")))
            } else {
                Err(ResponseError::with_kind(FailureKind::Internal, prefix.concat("\"???\"")))
            }
        },
        Err(e) => Err(ResponseError::with_kind(e.fault.kind(), prefix.concat(e.detail.as_str()))),
    }
}

/// The response to an update, from the number of rows that it changed:
/// success for exactly one, not found for none, an internal error for more.
pub fn update_todo(id: i32, reply: Result<usize, StoreError>) -> (r: Result<(), ResponseError>)
    ensures
        match reply {
            Ok(affected) => if affected == 1 {
                r is Ok
            } else {
                r matches Err(x) && x.kind == affected_kind(affected as nat) && x.message@
                    == update_message(id as int, affected_detail(affected as nat))
            },
            Err(e) => r matches Err(x) && x.kind == e.fault.failure_kind() && x.message@
                == update_message(id as int, e.detail@),
        },
{
    let prefix = String::from_str("Failed to update todo ").concat(
        i32_to_decimal(id).as_str(),
    ).concat(", response: ");
    match reply {
        Ok(affected) => {
            if affected == 1 {
                Ok(())
            } else if affected == 0 {
                Err(ResponseError::with_kind(FailureKind::NotFound, prefix.concat("\"NotFound\"")))
            } else {
                Err(ResponseError::with_kind(FailureKind::Internal, prefix.concat("\"???\"")))
            }
        },
        Err(e) => Err(ResponseError::with_kind(e.fault.kind(), prefix.concat(e.detail.as_str()))),
    }
}

} // verus!
