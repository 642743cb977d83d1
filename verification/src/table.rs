//! A table of todos held in memory, with the behaviour that the operations
//! expect of a store: ids are unique and assigned by the table, an update
//! rewrites the title and the flag of one row, a delete removes the row.

use crate::error::{StoreError, StoreFault};
use crate::todo::{Todo, TodoView};
use vstd::prelude::*;
use vstd::string::*;

verus! {

/// Whether some row carries the id.
pub open spec fn has_id(rows: Seq<TodoView>, id: int) -> bool {
    exists|i: int| 0 <= i < rows.len() && (#[trigger] rows[i]).id == id
}

/// The place of a row that carries the id, where there is one.
pub open spec fn index_of(rows: Seq<TodoView>, id: int) -> int {
    choose|i: int| 0 <= i < rows.len() && (#[trigger] rows[i]).id == id
}

/// Rows stand in the order of their ids, so no id occurs twice.
pub open spec fn ascending(rows: Seq<TodoView>) -> bool {
    forall|i: int, j: int| 0 <= i < j < rows.len() ==> (#[trigger] rows[i]).id < (#[trigger] rows[j]).id
}

/// A row with its title and flag replaced.
pub open spec fn rewritten(row: TodoView, title: Seq<char>, done: bool) -> TodoView {
    TodoView { id: row.id, title, done, created_at: row.created_at }
}

/// The table as a mathematical value: its rows in the order of creation and
/// the id that the next row will get.
pub ghost struct TableView {
    pub rows: Seq<TodoView>,
    pub next_id: int,
}

impl TableView {
    /// The table with no rows, whose first id will be 1.
    pub open spec fn empty() -> TableView {
        TableView { rows: Seq::empty(), next_id: 1 }
    }

    /// Ids are positive, below the next id, and ascending.
    pub open spec fn wf(self) -> bool {
        &&& 1 <= self.next_id <= i32::MAX
        &&& ascending(self.rows)
        &&& forall|i: int| 0 <= i < self.rows.len() ==> 0 < (#[trigger] self.rows[i]).id < self.next_id
    }

    /// Whether the table still has an id to give.
    pub open spec fn can_insert(self) -> bool {
        self.next_id < i32::MAX
    }

    /// The row that a creation writes.
    pub open spec fn new_row(self, title: Seq<char>, done: bool, now: int) -> TodoView {
        TodoView { id: self.next_id, title, done, created_at: now }
    }

    /// The table after a creation.
    pub open spec fn inserted(self, title: Seq<char>, done: bool, now: int) -> TableView {
        TableView { rows: self.rows.push(self.new_row(title, done, now)), next_id: self.next_id + 1 }
    }

    /// The row with the id, if there is one.
    pub open spec fn find(self, id: int) -> Option<TodoView> {
        if has_id(self.rows, id) {
            Some(self.rows[index_of(self.rows, id)])
        } else {
            None
        }
    }

    /// The number of rows that an update or delete by the id touches.
    pub open spec fn matching(self, id: int) -> nat {
        if has_id(self.rows, id) {
            1
        } else {
            0
        }
    }

    /// The table after an update by id: the row with the id has the new
    /// title and flag, every other field and row is as before.
    pub open spec fn updated(self, id: int, title: Seq<char>, done: bool) -> TableView {
        TableView {
            rows: self.rows.map_values(
                |row: TodoView|
                    if row.id == id {
                        rewritten(row, title, done)
                    } else {
                        row
                    },
            ),
            next_id: self.next_id,
        }
    }

    /// The table after a delete by id: the row with the id is gone.
    pub open spec fn deleted(self, id: int) -> TableView {
        if has_id(self.rows, id) {
            TableView { rows: self.rows.remove(index_of(self.rows, id)), next_id: self.next_id }
        } else {
            self
        }
    }
}

/// In a well-formed table a row's place is fixed by its id.
pub proof fn lemma_place_is_unique(t: TableView, i: int)
    requires
        t.wf(),
        0 <= i < t.rows.len(),
    ensures
        has_id(t.rows, t.rows[i].id),
        index_of(t.rows, t.rows[i].id) == i,
{
    let id = t.rows[i].id;
    let j = index_of(t.rows, id);
    assert(0 <= j < t.rows.len() && t.rows[j].id == id);
    if j < i {
        assert(t.rows[j].id < t.rows[i].id);
    } else if i < j {
        assert(t.rows[i].id < t.rows[j].id);
    }
}

/// The table in memory.
pub struct TodoTable {
    rows: Vec<Todo>,
    next_id: i32,
}

impl View for TodoTable {
    type V = TableView;

    closed spec fn view(&self) -> TableView {
        TableView { rows: self.rows@.map_values(|t: Todo| t@), next_id: self.next_id as int }
    }
}

impl TodoTable {
    /// The invariant of the table: that of its value.
    pub open spec fn wf(&self) -> bool {
        self@.wf()
    }

    /// An empty table.
    pub fn new() -> (t: Self)
        ensures
            t.wf(),
            t@ == TableView::empty(),
    {
        let t = TodoTable { rows: Vec::new(), next_id: 1 };
        assert(t@.rows =~= Seq::empty());
        t
    }

    /// An empty table whose first row gets the given id, or 1 where that is
    /// not positive.
    pub fn starting_at(first_id: i32) -> (t: Self)
        ensures
            t.wf(),
            t@.rows == Seq::<TodoView>::empty(),
            t@.next_id == if first_id >= 1 {
                first_id as int
            } else {
                1
            },
    {
        let next_id: i32 = if first_id >= 1 {
            first_id
        } else {
            1
        };
        let t = TodoTable { rows: Vec::new(), next_id };
        assert(t@.rows =~= Seq::empty());
        t
    }

    /// The number of rows.
    pub fn len(&self) -> (n: usize)
        ensures
            n == self@.rows.len(),
    {
        self.rows.len()
    }

    /// The place of the row with the id.
    fn position(&self, id: i32) -> (r: Option<usize>)
        requires
            self.wf(),
        ensures
            match r {
                Some(i) => i < self.rows.len() && self.rows[i as int].id == id && has_id(
                    self@.rows,
                    id as int,
                ) && index_of(self@.rows, id as int) == i,
                None => !has_id(self@.rows, id as int),
            },
    {
        let mut i: usize = 0;
        while i < self.rows.len()
            invariant
                self.wf(),
                i <= self.rows.len(),
                forall|k: int| 0 <= k < i ==> (#[trigger] self@.rows[k]).id != id,
            decreases self.rows.len() - i,
        {
            if self.rows[i].id == id {
                proof {
                    assert(self@.rows[i as int].id == id);
                    lemma_place_is_unique(self@, i as int);
                }
                return Some(i);
            }
            i += 1;
        }
        None
    }

    /// Writes a new row with the payload's title and flag, the table's next
    /// id and the given time, and returns it. The payload's own id and time
    /// are not read. Fails, changing nothing, once the ids are used up.
    pub fn insert(&mut self, payload: &Todo, now: i64) -> (r: Result<Todo, StoreError>)
        requires
            old(self).wf(),
        ensures
            final(self).wf(),
            if old(self)@.can_insert() {
                r matches Ok(row) && row@ == old(self)@.new_row(
                    payload.title@,
                    payload.done,
                    now as int,
                ) && final(self)@ == old(self)@.inserted(payload.title@, payload.done, now as int)
            } else {
                r matches Err(e) && e.fault == StoreFault::Unavailable && e.detail@
                    == "IdsExhausted"@ && final(self)@ == old(self)@
            },
    {
        if self.next_id == i32::MAX {
            return Err(
                StoreError { fault: StoreFault::Unavailable, detail: String::from_str("IdsExhausted") },
            );
        }
        let row = Todo {
            id: self.next_id,
            title: payload.title.clone(),
            done: payload.done,
            created_at: now,
        };
        let copy = row.clone();
        self.rows.push(row);
        self.next_id = self.next_id + 1;
        assert(self@.rows =~= old(self)@.rows.push(copy@));
        Ok(copy)
    }

    /// The row with the id, or the fault of a query that matched no row.
    pub fn find(&self, id: i32) -> (r: Result<Todo, StoreError>)
        requires
            self.wf(),
        ensures
            match self@.find(id as int) {
                Some(row) => r matches Ok(t) && t@ == row,
                None => r matches Err(e) && e.fault == StoreFault::NoRow && e.detail@
                    == "NotFound"@,
            },
    {
        match self.position(id) {
            Some(i) => Ok(self.rows[i].clone()),
            None => Err(StoreError { fault: StoreFault::NoRow, detail: String::from_str("NotFound") }),
        }
    }

    /// All rows, in the order of creation.
    pub fn load(&self) -> (r: Vec<Todo>)
        ensures
            r@.map_values(|t: Todo| t@) == self@.rows,
    {
        let mut out: Vec<Todo> = Vec::new();
        let mut i: usize = 0;
        while i < self.rows.len()
            invariant
                i <= self.rows.len(),
                out@ == self.rows@.subrange(0, i as int),
            decreases self.rows.len() - i,
        {
            out.push(self.rows[i].clone());
            assert(out@ =~= self.rows@.subrange(0, i + 1));
            i += 1;
        }
        assert(out@ =~= self.rows@);
        out
    }

    /// Gives the row with the id the new title and flag, and returns the
    /// number of rows changed: one if the id is in the table, else none.
    pub fn update(&mut self, id: i32, title: &str, done: bool) -> (affected: usize)
        requires
            old(self).wf(),
        ensures
            final(self).wf(),
            affected == old(self)@.matching(id as int),
            final(self)@ == old(self)@.updated(id as int, title@, done),
    {
        match self.position(id) {
            Some(i) => {
                let created_at = self.rows[i].created_at;
                let row = Todo { id, title: String::from_str(title), done, created_at };
                self.rows.set(i, row);
                assert(self@.rows =~= old(self)@.updated(id as int, title@, done).rows) by {
                    assert forall|k: int| 0 <= k < old(self)@.rows.len() && k != i implies (
                    #[trigger] old(self)@.rows[k]).id != id by {
                        lemma_place_is_unique(old(self)@, k);
                    }
                }
                1
            },
            None => {
                assert(self@.rows =~= old(self)@.updated(id as int, title@, done).rows);
                0
            },
        }
    }

    /// Removes the row with the id, and returns the number of rows removed:
    /// one if the id was in the table, else none.
    pub fn delete(&mut self, id: i32) -> (affected: usize)
        requires
            old(self).wf(),
        ensures
            final(self).wf(),
            affected == old(self)@.matching(id as int),
            final(self)@ == old(self)@.deleted(id as int),
    {
        match self.position(id) {
            Some(i) => {
                self.rows.remove(i);
                assert(self@.rows =~= old(self)@.rows.remove(i as int));
                1
            },
            None => 0,
        }
    }
}

} // verus!
