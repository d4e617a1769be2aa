//! The values that the create, update and search operations take.
use vstd::prelude::*;
use crate::priority::Priority;
use crate::recurrence::Recurrence;
use crate::status::Status;

verus! {

/// Everything a new task is made of, but its identifier and creation time.
#[derive(Debug, Clone)]
pub struct AddTodoInput {
    pub title: String,
    pub description: Option<String>,
    pub priority: Priority,
    pub status: Status,
    pub due_date: Option<i64>,
    pub tags: Option<Vec<String>>,
    pub recurrence: Option<Recurrence>,
    pub parent_id: Option<u128>,
    pub subtasks: Option<Vec<u128>>,
}

/// The task to change, and for each field either a new value or `None`,
/// which leaves the field as it is.
#[derive(Debug, Clone)]
pub struct UpdateTodoInput {
    pub id: u128,
    pub new_title: Option<String>,
    pub new_description: Option<String>,
    pub new_priority: Option<Priority>,
    pub new_status: Option<Status>,
    pub new_due_date: Option<i64>,
    pub new_recurrence: Option<Recurrence>,
    pub new_tags: Option<Vec<String>>,
    pub new_parent_id: Option<u128>,
    pub new_subtasks: Option<Vec<u128>>,
}

/// Search criteria; each one given must hold of a task for it to match,
/// and those left `None` are not checked.
#[derive(Debug, Clone)]
pub struct SearchTodoInput {
    /// The identifier, as text.
    pub id: Option<String>,
    /// A piece of the title, matched without regard to case.
    pub title: Option<String>,
    pub priority: Option<Priority>,
    pub status: Option<Status>,
    pub due_date: Option<i64>,
    pub recurrence: Option<Recurrence>,
    /// Tags that the task must all carry.
    pub tags: Option<Vec<String>>,
    pub parent_id: Option<u128>,
}

impl UpdateTodoInput {
    /// An update of task `id` that changes nothing.
    pub fn unchanged(id: u128) -> (r: UpdateTodoInput)
        ensures
            r.id == id,
            r.new_title is None,
            r.new_description is None,
            r.new_priority is None,
            r.new_status is None,
            r.new_due_date is None,
            r.new_recurrence is None,
            r.new_tags is None,
            r.new_parent_id is None,
            r.new_subtasks is None,
    {
        UpdateTodoInput {
            id,
            new_title: None,
            new_description: None,
            new_priority: None,
            new_status: None,
            new_due_date: None,
            new_recurrence: None,
            new_tags: None,
            new_parent_id: None,
            new_subtasks: None,
        }
    }
}

impl SearchTodoInput {
    /// Criteria that every task meets.
    pub open spec fn spec_any() -> SearchTodoInput {
        SearchTodoInput {
            id: None,
            title: None,
            priority: None,
            status: None,
            due_date: None,
            recurrence: None,
            tags: None,
            parent_id: None,
        }
    }

    /// Criteria that every task meets.
    pub fn any() -> (r: SearchTodoInput)
        ensures
            r == SearchTodoInput::spec_any(),
    {
        SearchTodoInput {
            id: None,
            title: None,
            priority: None,
            status: None,
            due_date: None,
            recurrence: None,
            tags: None,
            parent_id: None,
        }
    }
}

} // verus!
