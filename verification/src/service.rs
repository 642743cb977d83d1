//! The five todo operations run against the table in memory: each asks the
//! table and answers as the operation answers a store's reply.

use crate::error::{FailureKind, ResponseError};
use crate::handlers::{
    create_message, create_todo, delete_message, delete_todo, fetch_message, get_all_todos,
    get_todo, no_row_detail, update_message, update_todo,
};
use crate::laws::law_update_of_missing_id;
use crate::table::TodoTable;
use crate::todo::Todo;
use vstd::prelude::*;

verus! {

/// Creates a todo with the payload's title and flag. The table assigns the
/// id and takes `now` as the time of creation; the payload's own id and time
/// are not read. Fails as an internal error, changing nothing, once the
/// table has no id left.
pub fn create(table: &mut TodoTable, payload: &Todo, now: i64) -> (r: Result<Todo, ResponseError>)
    requires
        old(table).wf(),
    ensures
        final(table).wf(),
        if old(table)@.can_insert() {
            r matches Ok(row) && row@ == old(table)@.new_row(
                payload.title@,
                payload.done,
                now as int,
            ) && final(table)@ == old(table)@.inserted(payload.title@, payload.done, now as int)
        } else {
            r matches Err(e) && e.kind == FailureKind::Internal && e.message@ == create_message(
                "IdsExhausted"@,
            ) && final(table)@ == old(table)@
        },
{
    create_todo(table.insert(payload, now))
}

/// Fetches the todo with the id: the row where the table has it, else a
/// not-found error that names the id.
pub fn fetch(table: &TodoTable, id: i32) -> (r: Result<Todo, ResponseError>)
    requires
        table.wf(),
    ensures
        match table@.find(id as int) {
            Some(row) => r matches Ok(todo) && todo@ == row,
            None => r matches Err(e) && e.kind == FailureKind::NotFound && e.message@
                == fetch_message(id as int, "NotFound"@),
        },
{
    get_todo(id, table.find(id))
}

/// Lists every todo, in the order of creation.
pub fn list(table: &TodoTable) -> (r: Result<Vec<Todo>, ResponseError>)
    ensures
        r matches Ok(todos) && todos@.map_values(|t: Todo| t@) == table@.rows,
{
    get_all_todos(Ok(table.load()))
}

/// Gives the todo with the id the payload's title and flag; its id and time
/// of creation stay. Where the table has no such id, the answer is a
/// not-found error and the table is what it was.
pub fn update(table: &mut TodoTable, id: i32, payload: &Todo) -> (r: Result<(), ResponseError>)
    requires
        old(table).wf(),
    ensures
        final(table).wf(),
        final(table)@ == old(table)@.updated(id as int, payload.title@, payload.done),
        match old(table)@.find(id as int) {
            Some(_) => r is Ok,
            None => r matches Err(e) && e.kind == FailureKind::NotFound && e.message@
                == update_message(id as int, no_row_detail()) && final(table)@ == old(table)@,
        },
{
    proof {
        if old(table)@.find(id as int) is None {
            law_update_of_missing_id(old(table)@, id as int, payload.title@, payload.done);
        }
    }
    let affected = table.update(id, payload.title.as_str(), payload.done);
    update_todo(id, Ok(affected))
}

/// Removes the todo with the id. Where the table has no such id, the answer
/// is a not-found error and the table is what it was.
pub fn remove(table: &mut TodoTable, id: i32) -> (r: Result<(), ResponseError>)
    requires
        old(table).wf(),
    ensures
        final(table).wf(),
        final(table)@ == old(table)@.deleted(id as int),
        match old(table)@.find(id as int) {
            Some(_) => r is Ok,
            None => r matches Err(e) && e.kind == FailureKind::NotFound && e.message@
                == delete_message(id as int, no_row_detail()) && final(table)@ == old(table)@,
        },
{
    let affected = table.delete(id);
    delete_todo(id, Ok(affected))
}

} // verus!
