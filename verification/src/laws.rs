//! What holds of the table and of the responses across several operations.

use crate::error::FailureKind;
use crate::handlers::affected_kind;
use crate::table::{has_id, index_of, lemma_place_is_unique, TableView};
use crate::todo::TodoView;
use vstd::prelude::*;

verus! {

/// A creation keeps the table well formed, and a fetch by the id that it
/// assigned finds the row that it wrote: the payload's title and flag, the
/// table's id and the time of creation.
pub proof fn law_created_row_is_found(t: TableView, title: Seq<char>, done: bool, now: int)
    requires
        t.wf(),
        t.can_insert(),
    ensures
        t.inserted(title, done, now).wf(),
        t.inserted(title, done, now).find(t.next_id) == Some(t.new_row(title, done, now)),
        t.inserted(title, done, now).matching(t.next_id) == 1,
        t.find(t.next_id) is None,
{
    let u = t.inserted(title, done, now);
    let last = t.rows.len() as int;
    assert(u.rows[last] == t.new_row(title, done, now));
    assert forall|i: int, j: int| 0 <= i < j < u.rows.len() implies (#[trigger] u.rows[i]).id < (
    #[trigger] u.rows[j]).id by {
        assert(u.rows[i] == t.rows[i]);
        if j < last {
            assert(u.rows[j] == t.rows[j]);
        }
    }
    assert forall|i: int| 0 <= i < u.rows.len() implies 0 < (#[trigger] u.rows[i]).id
        < u.next_id by {
        if i < last {
            assert(u.rows[i] == t.rows[i]);
        }
    }
    lemma_place_is_unique(u, last);
}

/// A delete keeps the table well formed and leaves every other row in
/// place; a fetch by the deleted id then finds no row, so it is answered as
/// not found.
pub proof fn law_deleted_row_is_not_found(t: TableView, id: int)
    requires
        t.wf(),
    ensures
        t.deleted(id).wf(),
        t.deleted(id).find(id) is None,
        t.deleted(id).matching(id) == 0,
        affected_kind(t.deleted(id).matching(id)) == FailureKind::NotFound,
        forall|other: int| other != id ==> t.deleted(id).find(other) == t.find(other),
{
    let u = t.deleted(id);
    if has_id(t.rows, id) {
        let p = index_of(t.rows, id);
        assert forall|k: int| 0 <= k < u.rows.len() implies (#[trigger] u.rows[k]) == t.rows[if k
            < p {
            k
        } else {
            k + 1
        }] by {}
        assert forall|i: int, j: int| 0 <= i < j < u.rows.len() implies (#[trigger] u.rows[i]).id < (
        #[trigger] u.rows[j]).id by {
            let a = if i < p { i } else { i + 1 };
            let b = if j < p { j } else { j + 1 };
            assert(u.rows[i] == t.rows[a]);
            assert(u.rows[j] == t.rows[b]);
        }
        assert forall|i: int| 0 <= i < u.rows.len() implies 0 < (#[trigger] u.rows[i]).id
            < u.next_id by {
            let a = if i < p { i } else { i + 1 };
            assert(u.rows[i] == t.rows[a]);
        }
        if has_id(u.rows, id) {
            let k = index_of(u.rows, id);
            let a = if k < p { k } else { k + 1 };
            assert(u.rows[k] == t.rows[a]);
            lemma_place_is_unique(t, a);
        }
        assert forall|other: int| other != id implies u.find(other) == t.find(other) by {
            if has_id(t.rows, other) {
                let a = index_of(t.rows, other);
                let k = if a < p { a } else { a - 1 };
                assert(u.rows[k] == t.rows[a]);
                lemma_place_is_unique(u, k);
            } else if has_id(u.rows, other) {
                let k = index_of(u.rows, other);
                let a = if k < p { k } else { k + 1 };
                assert(u.rows[k] == t.rows[a]);
            }
        }
    }
}

/// An update keeps the table well formed. Where the id is in the table, a
/// fetch then finds the row with the new title and flag and with the id and
/// time it had; every other row is as it was.
pub proof fn law_updated_row_is_rewritten(t: TableView, id: int, title: Seq<char>, done: bool)
    requires
        t.wf(),
    ensures
        t.updated(id, title, done).wf(),
        t.updated(id, title, done).rows.len() == t.rows.len(),
        t.updated(id, title, done).matching(id) == t.matching(id),
        match t.find(id) {
            Some(row) => t.updated(id, title, done).find(id) == Some(
                TodoView { id, title, done, created_at: row.created_at },
            ),
            None => t.updated(id, title, done).find(id) is None,
        },
        forall|other: int| other != id ==> t.updated(id, title, done).find(other) == t.find(other),
{
    let u = t.updated(id, title, done);
    assert forall|k: int| 0 <= k < u.rows.len() implies (#[trigger] u.rows[k]).id
        == t.rows[k].id by {}
    assert(u.wf());
    assert forall|other: int| has_id(u.rows, other) == has_id(t.rows, other) by {
        if has_id(u.rows, other) {
            let k = index_of(u.rows, other);
            assert(t.rows[k].id == other);
        }
        if has_id(t.rows, other) {
            let k = index_of(t.rows, other);
            assert(u.rows[k].id == other);
        }
    }
    assert forall|other: int| has_id(t.rows, other) implies index_of(u.rows, other) == index_of(
        t.rows,
        other,
    ) by {
        let k = index_of(t.rows, other);
        assert(u.rows[k].id == other);
        lemma_place_is_unique(u, k);
    }
}

/// An update by an id that is not in the table changes no row: the store
/// reports none affected, which is answered as not found, and the table is
/// what it was.
pub proof fn law_update_of_missing_id(t: TableView, id: int, title: Seq<char>, done: bool)
    requires
        t.wf(),
        t.find(id) is None,
    ensures
        t.matching(id) == 0,
        affected_kind(t.matching(id)) == FailureKind::NotFound,
        t.updated(id, title, done) == t,
{
    let u = t.updated(id, title, done);
    assert forall|k: int| 0 <= k < t.rows.len() implies u.rows[k] == t.rows[k] by {
        if t.rows[k].id == id {
            assert(has_id(t.rows, id));
        }
    }
    assert(u.rows =~= t.rows);
}

/// The payload of one creation: the title and flag that the client sent and
/// the time at which the table wrote the row.
pub ghost struct Creation {
    pub title: Seq<char>,
    pub done: bool,
    pub now: int,
}

/// The table after a run of creations, the first of the sequence first.
pub open spec fn after_creations(t: TableView, creations: Seq<Creation>) -> TableView
    decreases creations.len(),
{
    if creations.len() == 0 {
        t
    } else {
        let before = after_creations(t, creations.drop_last());
        let c = creations.last();
        before.inserted(c.title, c.done, c.now)
    }
}

/// After a run of creations the table lists its earlier rows and then one
/// row for each creation, in order, with the creation's title, flag and
/// time and with ids counted up from the table's next id. Starting from the
/// empty table, the listing has exactly as many entries as were created.
pub proof fn law_listing_after_creations(t: TableView, creations: Seq<Creation>)
    requires
        t.wf(),
        t.next_id + creations.len() <= i32::MAX,
    ensures
        after_creations(t, creations).wf(),
        after_creations(t, creations).next_id == t.next_id + creations.len(),
        after_creations(t, creations).rows.len() == t.rows.len() + creations.len(),
        forall|i: int|
            0 <= i < t.rows.len() ==> (#[trigger] after_creations(t, creations).rows[i])
                == t.rows[i],
        forall|k: int|
            0 <= k < creations.len() ==> (#[trigger] after_creations(t, creations).rows[t.rows.len()
                + k]) == (TodoView {
                id: t.next_id + k,
                title: creations[k].title,
                done: creations[k].done,
                created_at: creations[k].now,
            }),
        t == TableView::empty() ==> after_creations(t, creations).rows.len() == creations.len(),
    decreases creations.len(),
{
    if creations.len() > 0 {
        let earlier = creations.drop_last();
        let c = creations.last();
        law_listing_after_creations(t, earlier);
        let before = after_creations(t, earlier);
        law_created_row_is_found(before, c.title, c.done, c.now);
        let u = after_creations(t, creations);
        assert forall|k: int| 0 <= k < creations.len() implies (#[trigger] u.rows[t.rows.len()
            + k]) == (TodoView {
            id: t.next_id + k,
            title: creations[k].title,
            done: creations[k].done,
            created_at: creations[k].now,
        }) by {
            if k < earlier.len() {
                assert(u.rows[t.rows.len() + k] == before.rows[t.rows.len() + k]);
                assert(earlier[k] == creations[k]);
            }
        }
        assert forall|i: int| 0 <= i < t.rows.len() implies (#[trigger] u.rows[i])
            == t.rows[i] by {
            assert(u.rows[i] == before.rows[i]);
        }
    }
}

/// Create, fetch, update, fetch, delete, fetch: the first fetch finds the
/// row as created, the second finds it with the new title and flag and the
/// same id and time, each of update and delete touches exactly one row, and
/// only the last fetch finds nothing.
pub proof fn law_round_trip(
    t: TableView,
    title: Seq<char>,
    done: bool,
    now: int,
    new_title: Seq<char>,
    new_done: bool,
)
    requires
        t.wf(),
        t.can_insert(),
    ensures
        ({
            let id = t.next_id;
            let created = t.inserted(title, done, now);
            let updated = created.updated(id, new_title, new_done);
            let deleted = updated.deleted(id);
            &&& created.find(id) == Some(TodoView { id, title, done, created_at: now })
            &&& created.matching(id) == 1
            &&& updated.find(id) == Some(
                TodoView { id, title: new_title, done: new_done, created_at: now },
            )
            &&& updated.matching(id) == 1
            &&& deleted.find(id) is None
            &&& deleted.wf()
            &&& forall|other: int| other != id ==> deleted.find(other) == t.find(other)
        }),
{
    let id = t.next_id;
    let created = t.inserted(title, done, now);
    let updated = created.updated(id, new_title, new_done);
    let deleted = updated.deleted(id);
    law_created_row_is_found(t, title, done, now);
    law_updated_row_is_rewritten(created, id, new_title, new_done);
    law_deleted_row_is_not_found(updated, id);
    assert forall|other: int| other != id implies deleted.find(other) == t.find(other) by {
        assert(deleted.find(other) == updated.find(other));
        assert(updated.find(other) == created.find(other));
        let last = t.rows.len() as int;
        if has_id(t.rows, other) {
            let a = index_of(t.rows, other);
            assert(created.rows[a] == t.rows[a]);
            lemma_place_is_unique(created, a);
        } else if has_id(created.rows, other) {
            let k = index_of(created.rows, other);
            if k < last {
                assert(created.rows[k] == t.rows[k]);
            }
        }
    }
}

} // verus!
