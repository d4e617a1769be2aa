//! The task store: a map from identifier to task, and the operations that
//! create, change and remove its entries.
use vstd::prelude::*;
use std::collections::HashMap;
use vstd::std_specs::hash::spec_hash_map_iter;
use vstd::std_specs::iter::IteratorSpec;
use crate::input::{AddTodoInput, UpdateTodoInput};
use crate::priority::Priority;
use crate::status::Status;
use crate::todo::{todo_from, updated, Todo};

verus! {

broadcast use vstd::std_specs::hash::group_hash_axioms;

/// Each task is filed under its own identifier.
pub open spec fn store_wf(m: Map<u128, Todo>) -> bool {
    forall|k: u128| #[trigger] m.contains_key(k) ==> m[k].id == k
}

/// Whether each task of the store is filed under its own identifier.
pub fn store_is_well_formed(todos: &HashMap<u128, Todo>) -> (r: bool)
    ensures
        r == store_wf(todos@),
{
    let ghost m = todos@;
    let ghost items = spec_hash_map_iter(todos).remaining();
    for (k, t) in it: todos.iter()
        invariant
            m == todos@,
            it.seq() == items,
            items.len() == m.dom().len(),
            forall|i: int|
                0 <= i < items.len() ==> m.contains_key(*items[i].0) && m[*items[i].0]
                    == *items[i].1,
            forall|k: u128| #[trigger] m.contains_key(k) ==> items.contains((&k, &m[k])),
            forall|i: int| 0 <= i < it.index() ==> (*items[i].1).id == *items[i].0,
    {
        if t.id != *k {
            return false;
        }
    }
    assert forall|k: u128| #[trigger] m.contains_key(k) implies m[k].id == k by {
        let i = choose|i: int| 0 <= i < items.len() && items[i] == (&k, &m[k]);
    }
    true
}

/// Files `todo` under its identifier, unless that identifier is taken, in
/// which case the store is left as it was.
pub fn insert_new(todos: &mut HashMap<u128, Todo>, todo: Todo) -> (inserted: bool)
    ensures
        inserted == !old(todos)@.contains_key(todo.id),
        inserted ==> final(todos)@ == old(todos)@.insert(todo.id, todo),
        !inserted ==> final(todos)@ == old(todos)@,
{
    if todos.contains_key(&todo.id) {
        false
    } else {
        let id = todo.id;
        todos.insert(id, todo);
        true
    }
}

/// Creates a task from `input` with a fresh identifier, stamped with the
/// current time, and files it. Returns its identifier; returns `None`, and
/// leaves the store as it was, if the fresh identifier is already taken,
/// which cannot happen in an empty store.
pub fn create_todo(todos: &mut HashMap<u128, Todo>, input: AddTodoInput) -> (r: Option<u128>)
    requires
        store_wf(old(todos)@),
    ensures
        store_wf(final(todos)@),
        match r {
            Some(id) => {
                &&& !old(todos)@.contains_key(id)
                &&& final(todos)@.contains_key(id)
                &&& final(todos)@ == old(todos)@.insert(
                    id,
                    todo_from(input, id, final(todos)@[id].created_at),
                )
            },
            None => final(todos)@ == old(todos)@,
        },
        r is None ==> exists|k: u128| old(todos)@.contains_key(k),
{
    let todo = Todo::new(input);
    let id = todo.id;
    if insert_new(todos, todo) {
        Some(id)
    } else {
        None
    }
}

/// Creates a task with the given title, description, priority and status,
/// and nothing else set; see `create_todo`.
pub fn add_todo_to_map(
    todos: &mut HashMap<u128, Todo>,
    title: String,
    description: String,
    priority: Priority,
    status: Status,
) -> (r: Option<u128>)
    requires
        store_wf(old(todos)@),
    ensures
        store_wf(final(todos)@),
        match r {
            Some(id) => {
                &&& !old(todos)@.contains_key(id)
                &&& final(todos)@.contains_key(id)
                &&& final(todos)@ == old(todos)@.insert(id, final(todos)@[id])
                &&& final(todos)@[id].id == id
                &&& final(todos)@[id].title == title
                &&& final(todos)@[id].description == Some(description)
                &&& final(todos)@[id].priority == priority
                &&& final(todos)@[id].status == status
                &&& final(todos)@[id].due_date is None
                &&& final(todos)@[id].tags is None
                &&& final(todos)@[id].recurrence is None
                &&& final(todos)@[id].parent_id is None
                &&& final(todos)@[id].subtasks is None
            },
            None => final(todos)@ == old(todos)@,
        },
        r is None ==> exists|k: u128| old(todos)@.contains_key(k),
{
    create_todo(
        todos,
        AddTodoInput {
            title,
            description: Some(description),
            priority,
            status,
            due_date: None,
            tags: None,
            recurrence: None,
            parent_id: None,
            subtasks: None,
        },
    )
}

/// Applies `input` to the task it names. Returns whether that task exists;
/// if it does not, the store is left as it was.
pub fn update_todo(todos: &mut HashMap<u128, Todo>, input: UpdateTodoInput) -> (found: bool)
    ensures
        found == old(todos)@.contains_key(input.id),
        found ==> final(todos)@ == old(todos)@.insert(
            input.id,
            updated(old(todos)@[input.id], input),
        ),
        !found ==> final(todos)@ == old(todos)@,
        store_wf(old(todos)@) ==> store_wf(final(todos)@),
{
    let id = input.id;
    match todos.remove(&id) {
        Some(t) => {
            let t2 = t.apply_update(input);
            todos.insert(id, t2);
            assert(final(todos)@ =~= old(todos)@.insert(id, updated(old(todos)@[id], input)));
            true
        },
        None => false,
    }
}

/// Changes the title, description, priority and status of task `id`, each
/// where a new value is given; see `update_todo`.
pub fn update_todo_in_map(
    todos: &mut HashMap<u128, Todo>,
    id: u128,
    new_title: Option<String>,
    new_description: Option<String>,
    new_priority: Option<Priority>,
    new_status: Option<Status>,
) -> (found: bool)
    ensures
        found == old(todos)@.contains_key(id),
        found ==> final(todos)@ == old(todos)@.insert(
            id,
            updated(
                old(todos)@[id],
                UpdateTodoInput {
                    id,
                    new_title,
                    new_description,
                    new_priority,
                    new_status,
                    new_due_date: None,
                    new_recurrence: None,
                    new_tags: None,
                    new_parent_id: None,
                    new_subtasks: None,
                },
            ),
        ),
        !found ==> final(todos)@ == old(todos)@,
        store_wf(old(todos)@) ==> store_wf(final(todos)@),
{
    update_todo(
        todos,
        UpdateTodoInput {
            id,
            new_title,
            new_description,
            new_priority,
            new_status,
            new_due_date: None,
            new_recurrence: None,
            new_tags: None,
            new_parent_id: None,
            new_subtasks: None,
        },
    )
}

/// Removes task `id`. Returns whether it was there.
pub fn delete_todo_by_id(todos: &mut HashMap<u128, Todo>, id: u128) -> (removed: bool)
    ensures
        removed == old(todos)@.contains_key(id),
        final(todos)@ == old(todos)@.remove(id),
        store_wf(old(todos)@) ==> store_wf(final(todos)@),
{
    todos.remove(&id).is_some()
}

/// A created task is in the store right after its creation, made of the
/// input it was created from, and every other entry is as it was.
pub proof fn created_task_is_stored(
    before: Map<u128, Todo>,
    after: Map<u128, Todo>,
    input: AddTodoInput,
    id: u128,
    created_at: i64,
)
    requires
        before.dom().finite(),
        !before.contains_key(id),
        after == before.insert(id, todo_from(input, id, created_at)),
    ensures
        after.contains_key(id),
        after[id] == todo_from(input, id, created_at),
        after[id].id == id,
        after.dom().len() == before.dom().len() + 1,
        forall|k: u128| k != id ==> (#[trigger] after.contains_key(k) == before.contains_key(k)),
        forall|k: u128| k != id && before.contains_key(k) ==> #[trigger] after[k] == before[k],
{
    broadcast use vstd::map::group_map_axioms, vstd::set::group_set_axioms;

}

/// An update that gives no new value leaves the task it names, and so the
/// whole store, exactly as it was.
pub proof fn empty_update_changes_nothing(m: Map<u128, Todo>, u: UpdateTodoInput)
    requires
        m.contains_key(u.id),
        u.new_title is None,
        u.new_description is None,
        u.new_priority is None,
        u.new_status is None,
        u.new_due_date is None,
        u.new_recurrence is None,
        u.new_tags is None,
        u.new_parent_id is None,
        u.new_subtasks is None,
    ensures
        updated(m[u.id], u) == m[u.id],
        m.insert(u.id, updated(m[u.id], u)) == m,
{
    assert(m.insert(u.id, updated(m[u.id], u)) =~= m);
}

/// Deleting an identifier that is present removes that entry and keeps
/// every other; deleting one that is absent changes nothing.
pub proof fn delete_removes_only_target(m: Map<u128, Todo>, id: u128)
    requires
        m.dom().finite(),
    ensures
        !m.remove(id).contains_key(id),
        forall|k: u128|
            k != id ==> (#[trigger] m.remove(id).contains_key(k) == m.contains_key(k)),
        forall|k: u128| k != id && m.contains_key(k) ==> #[trigger] m.remove(id)[k] == m[k],
        m.contains_key(id) ==> m.remove(id).dom().len() + 1 == m.dom().len(),
        !m.contains_key(id) ==> m.remove(id) == m,
{
    broadcast use vstd::map::group_map_axioms, vstd::set::group_set_axioms;

    if !m.contains_key(id) {
        assert(m.remove(id) =~= m);
    }
}

} // verus!
