//! What holds of the repository whatever the table holds, stated over the
//! functions of [`StoreState`] by which [`crate::store::TodoStore`] states
//! its operations.

use vstd::prelude::*;
use crate::error::TodoError;
use crate::models::TodoView;
use crate::request::UpdateTodo;
use crate::store::{changed, index_from, index_of, lemma_index, record, StoreState, MAX_ID};

verus! {

/// Outside of a transaction and while ids are left, creating a todo
/// succeeds for every title: the todo has that title, is not done, and its
/// id is positive, higher than every id given before and borne by no record
/// of the table. The id becomes the highest given, and the table stays one
/// that the engine can hold.
pub proof fn law_create_gives_fresh_id(store: StoreState, title: Seq<char>)
    requires
        store.wf(),
        !store.in_transaction(),
        store.last_id < MAX_ID,
    ensures
        store.create(title).1 matches Ok(todo) && todo.title == title && !todo.completed && todo.id
            > 0 && todo.id > store.last_id && record(store.rows, todo.id) is None
            && store.create(title).0.last_id == todo.id,
        store.create(title).0.wf(),
        !store.create(title).0.in_transaction(),
{
    lemma_index(store.rows, (store.last_id + 1) as u64, 0);
}

/// No operation of the repository lowers the highest id given, so an id
/// that create has returned is never returned again: every later create
/// returns a higher one.
pub proof fn law_ids_are_never_given_twice(
    store: StoreState,
    title: Seq<char>,
    id: u64,
    changes: UpdateTodo,
)
    requires
        store.wf(),
    ensures
        store.create(title).0.last_id >= store.last_id,
        store.update(id, changes).0.last_id == store.last_id,
        store.delete(id).0.last_id == store.last_id,
        store.create(title).1 matches Ok(todo) ==> todo.id > store.last_id,
{
    lemma_index(store.rows, id, 0);
}

/// One call of the repository.
pub enum Call {
    Create { title: Seq<char> },
    Find { id: u64 },
    Update { id: u64, changes: UpdateTodo },
    Delete { id: u64 },
    List,
}

impl StoreState {
    /// The table after one call.
    pub open spec fn after(self, call: Call) -> StoreState {
        match call {
            Call::Create { title } => self.create(title).0,
            Call::Update { id, changes } => self.update(id, changes).0,
            Call::Delete { id } => self.delete(id).0,
            _ => self,
        }
    }

    /// The table after a history of calls.
    pub open spec fn after_all(self, calls: Seq<Call>) -> StoreState
        decreases calls.len(),
    {
        if calls.len() == 0 {
            self
        } else {
            self.after_all(calls.drop_last()).after(calls.last())
        }
    }

    /// The id that the call at `index` of a history returned, if that call
    /// created a todo.
    pub open spec fn created_at(self, calls: Seq<Call>, index: int) -> Option<u64> {
        match calls[index] {
            Call::Create { title } => match self.after_all(calls.take(index)).create(title).1 {
                Ok(todo) => Some(todo.id),
                Err(_) => None,
            },
            _ => None,
        }
    }
}

/// A history of calls leaves a table that the engine can hold, outside of
/// any transaction, and with a highest id no lower than after any of its
/// beginnings.
proof fn lemma_history(store: StoreState, calls: Seq<Call>, k: int)
    requires
        store.wf(),
        !store.in_transaction(),
        0 <= k <= calls.len(),
    ensures
        store.after_all(calls).wf(),
        !store.after_all(calls).in_transaction(),
        store.after_all(calls.take(k)).wf(),
        store.after_all(calls.take(k)).last_id <= store.after_all(calls).last_id,
    decreases calls.len(),
{
    if calls.len() == 0 {
    } else {
        let before = calls.drop_last();
        let last = store.after_all(before);
        if k == calls.len() {
            assert(calls.take(k) =~= calls);
            lemma_history(store, before, 0);
        } else {
            assert(calls.take(k) =~= before.take(k));
            lemma_history(store, before, k);
        }
        match calls.last() {
            Call::Update { id, changes } => {
                lemma_index(last.rows, id, 0);
            },
            Call::Delete { id } => {
                lemma_index(last.rows, id, 0);
            },
            _ => {},
        }
    }
}

/// In every history of calls that starts outside of a transaction, create
/// never returns an id that an earlier create returned: a later create
/// returns a higher one.
pub proof fn law_created_ids_differ(store: StoreState, calls: Seq<Call>, earlier: int, later: int)
    requires
        store.wf(),
        !store.in_transaction(),
        0 <= earlier < later < calls.len(),
        store.created_at(calls, earlier) is Some,
        store.created_at(calls, later) is Some,
    ensures
        store.created_at(calls, earlier)->0 < store.created_at(calls, later)->0,
{
    let upto = calls.take(later);
    assert(upto.take(earlier + 1) =~= calls.take(earlier + 1));
    assert(calls.take(earlier + 1).drop_last() =~= calls.take(earlier));
    lemma_history(store, upto, earlier + 1);
    lemma_history(store, calls.take(earlier), 0);
}

/// A todo that was just created is found under its id, equal to what
/// create returned.
pub proof fn law_find_after_create(store: StoreState, title: Seq<char>)
    requires
        store.wf(),
        store.create(title).1 is Ok,
    ensures
        store.create(title).0.find(store.create(title).1->Ok_0.id) == store.create(title).1,
{
    let todo = store.next_todo(title);
    let rows = store.rows.push(todo);
    lemma_index(rows, todo.id, 0);
    let found = index_from(rows, todo.id, 0);
    assert(rows[store.rows.len() as int] == todo);
    assert(found->0 == store.rows.len());
}

/// An update that sets only the flag changes the flag of the record and
/// neither its title nor its id, and leaves every other record as it was.
/// The record is returned as it now is.
pub proof fn law_update_of_flag_keeps_title(
    store: StoreState,
    id: u64,
    changes: UpdateTodo,
    completed: bool,
)
    requires
        store.wf(),
        !store.in_transaction(),
        record(store.rows, id) is Some,
        changes.title is None,
        changes.completed == Some(completed),
    ensures
        store.update(id, changes).1 == Ok::<TodoView, TodoError>(
            TodoView { id, title: record(store.rows, id)->0.title, completed },
        ),
        store.update(id, changes).0.find(id) == store.update(id, changes).1,
        forall|other: u64|
            other != id ==> record(store.update(id, changes).0.rows, other) == record(
                store.rows,
                other,
            ),
        store.update(id, changes).0.rows.len() == store.rows.len(),
{
    lemma_update(store, id, changes);
}

/// An update that sets only the title changes the title of the record and
/// neither its flag nor its id, and leaves every other record as it was.
/// The record is returned as it now is.
pub proof fn law_update_of_title_keeps_flag(store: StoreState, id: u64, changes: UpdateTodo)
    requires
        store.wf(),
        !store.in_transaction(),
        record(store.rows, id) is Some,
        changes.title is Some,
        changes.completed is None,
    ensures
        store.update(id, changes).1 == Ok::<TodoView, TodoError>(
            TodoView {
                id,
                title: changes.title->0@,
                completed: record(store.rows, id)->0.completed,
            },
        ),
        store.update(id, changes).0.find(id) == store.update(id, changes).1,
        forall|other: u64|
            other != id ==> record(store.update(id, changes).0.rows, other) == record(
                store.rows,
                other,
            ),
        store.update(id, changes).0.rows.len() == store.rows.len(),
{
    lemma_update(store, id, changes);
}

/// After an update of an existing record, that record is the changed one
/// and every other id finds what it found before.
proof fn lemma_update(store: StoreState, id: u64, changes: UpdateTodo)
    requires
        store.wf(),
        record(store.rows, id) is Some,
    ensures
        record(store.with_changes(id, changes).rows, id) == Some(
            changed(record(store.rows, id)->0, changes),
        ),
        record(store.rows, id)->0.id == id,
        forall|other: u64|
            other != id ==> record(store.with_changes(id, changes).rows, other) == record(
                store.rows,
                other,
            ),
        store.with_changes(id, changes).rows.len() == store.rows.len(),
{
    lemma_index(store.rows, id, 0);
    let at = index_of(store.rows, id)->0;
    let after = store.rows.update(at, changed(store.rows[at], changes));
    assert forall|other: u64| index_of(after, other) == index_of(store.rows, other) by {
        lemma_same_ids(store.rows, after, other, 0);
    }
    assert forall|other: u64| other != id implies record(after, other) == record(
        store.rows,
        other,
    ) by {
        lemma_index(store.rows, other, 0);
    }
}

/// Two lists with the same ids at the same places find an id at the same
/// place.
proof fn lemma_same_ids(left: Seq<TodoView>, right: Seq<TodoView>, id: u64, from: int)
    requires
        left.len() == right.len(),
        forall|i: int| 0 <= i < left.len() ==> left[i].id == right[i].id,
        0 <= from,
    ensures
        index_from(left, id, from) == index_from(right, id, from),
    decreases left.len() - from,
{
    if from < left.len() && left[from].id != id {
        lemma_same_ids(left, right, id, from + 1);
    }
}

/// An update that names no field fails as invalid and changes nothing,
/// whatever the id and whether or not a record has it.
pub proof fn law_empty_update_is_invalid(store: StoreState, id: u64, changes: UpdateTodo)
    requires
        changes.spec_is_empty(),
    ensures
        store.update(id, changes) == (store, Err::<TodoView, TodoError>(TodoError::Validation)),
{
}

/// After a delete, no record is found under the id, whether or not the
/// delete found one.
pub proof fn law_find_after_delete(store: StoreState, id: u64)
    requires
        store.wf(),
    ensures
        store.delete(id).0.find(id) == Err::<TodoView, TodoError>(TodoError::NotFound),
        store.delete(id).0.wf(),
{
    lemma_index(store.rows, id, 0);
    let after = store.delete(id).0.rows;
    lemma_index(after, id, 0);
    if index_of(store.rows, id) is Some {
        assert(forall|j: int| 0 <= j < after.len() ==> after[j].id != id);
    }
}

/// Where no record has the id, delete and update both report that the
/// record was not found, not a fault, and change nothing.
pub proof fn law_missing_id_is_not_found(store: StoreState, id: u64, changes: UpdateTodo)
    requires
        store.wf(),
        !store.in_transaction(),
        record(store.rows, id) is None,
        !changes.spec_is_empty(),
    ensures
        store.delete(id) == (store, Err::<(), TodoError>(TodoError::NotFound)),
        store.update(id, changes) == (store, Err::<TodoView, TodoError>(TodoError::NotFound)),
{
}

} // verus!
