//! The todo record.

use vstd::prelude::*;

verus! {

/// One todo. `created_at` counts microseconds since the Unix epoch, in UTC.
#[derive(Debug, PartialEq, Eq)]
pub struct Todo {
    pub id: i32,
    pub title: String,
    pub done: bool,
    pub created_at: i64,
}

/// What a todo is to a contract: its fields as mathematical values.
pub ghost struct TodoView {
    pub id: int,
    pub title: Seq<char>,
    pub done: bool,
    pub created_at: int,
}

impl View for Todo {
    type V = TodoView;

    open spec fn view(&self) -> TodoView {
        TodoView {
            id: self.id as int,
            title: self.title@,
            done: self.done,
            created_at: self.created_at as int,
        }
    }
}

impl Clone for Todo {
    fn clone(&self) -> (r: Self)
        ensures
            r == *self,
    {
        Todo {
            id: self.id,
            title: self.title.clone(),
            done: self.done,
            created_at: self.created_at,
        }
    }
}

} // verus!
