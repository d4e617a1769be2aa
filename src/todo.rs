//! The task record.
use vstd::prelude::*;
use crate::clock::now_millis;
use crate::ids::fresh_id;
use crate::input::{AddTodoInput, UpdateTodoInput};
use crate::priority::Priority;
use crate::recurrence::Recurrence;
use crate::status::Status;

verus! {

/// One to-do item. `created_at` and `due_date` are milliseconds since the
/// Unix epoch; `parent_id` and `subtasks` refer to other tasks by
/// identifier, and nothing checks that those exist.
#[derive(Debug, Clone, PartialEq)]
pub struct Todo {
    pub id: u128,
    pub title: String,
    pub description: Option<String>,
    pub priority: Priority,
    pub status: Status,
    pub created_at: i64,
    pub due_date: Option<i64>,
    pub tags: Option<Vec<String>>,
    pub parent_id: Option<u128>,
    pub subtasks: Option<Vec<u128>>,
    pub recurrence: Option<Recurrence>,
}

/// The task made of `input`, with identifier `id`, created at `created_at`.
pub open spec fn todo_from(input: AddTodoInput, id: u128, created_at: i64) -> Todo {
    Todo {
        id,
        title: input.title,
        description: input.description,
        priority: input.priority,
        status: input.status,
        created_at,
        due_date: input.due_date,
        tags: input.tags,
        parent_id: input.parent_id,
        subtasks: input.subtasks,
        recurrence: input.recurrence,
    }
}

/// `t` with each field that `u` gives replaced; the identifier and the
/// creation time are kept.
pub open spec fn updated(t: Todo, u: UpdateTodoInput) -> Todo {
    Todo {
        id: t.id,
        title: match u.new_title {
            Some(x) => x,
            None => t.title,
        },
        description: match u.new_description {
            Some(x) => Some(x),
            None => t.description,
        },
        priority: match u.new_priority {
            Some(x) => x,
            None => t.priority,
        },
        status: match u.new_status {
            Some(x) => x,
            None => t.status,
        },
        created_at: t.created_at,
        due_date: match u.new_due_date {
            Some(x) => Some(x),
            None => t.due_date,
        },
        tags: match u.new_tags {
            Some(x) => Some(x),
            None => t.tags,
        },
        parent_id: match u.new_parent_id {
            Some(x) => Some(x),
            None => t.parent_id,
        },
        subtasks: match u.new_subtasks {
            Some(x) => Some(x),
            None => t.subtasks,
        },
        recurrence: match u.new_recurrence {
            Some(x) => Some(x),
            None => t.recurrence,
        },
    }
}

impl Todo {
    /// The task is overdue at `now`: it has a due date, strictly before `now`.
    pub open spec fn spec_overdue_at(self, now: i64) -> bool {
        match self.due_date {
            Some(d) => d < now,
            None => false,
        }
    }

    /// A new task made of `input`, with a fresh random identifier, created now.
    pub fn new(input: AddTodoInput) -> (r: Todo)
        ensures
            r == todo_from(input, r.id, r.created_at),
    {
        let id = fresh_id();
        let created_at = now_millis();
        Todo::from_parts(input, id, created_at)
    }

    /// The task made of `input`, with the given identifier and creation time.
    pub fn from_parts(input: AddTodoInput, id: u128, created_at: i64) -> (r: Todo)
        ensures
            r == todo_from(input, id, created_at),
    {
        Todo {
            id,
            title: input.title,
            description: input.description,
            priority: input.priority,
            status: input.status,
            created_at,
            due_date: input.due_date,
            tags: input.tags,
            parent_id: input.parent_id,
            subtasks: input.subtasks,
            recurrence: input.recurrence,
        }
    }

    pub fn is_overdue_at(&self, now: i64) -> (r: bool)
        ensures
            r == self.spec_overdue_at(now),
    {
        match self.due_date {
            Some(d) => d < now,
            None => false,
        }
    }

    /// Whether the task is overdue by the current time. Only a task with a
    /// due date can be.
    pub fn is_overdue(&self) -> (r: bool)
        ensures
            r ==> self.due_date is Some,
    {
        let now = now_millis();
        self.is_overdue_at(now)
    }

    /// The task with the fields that `u` gives replaced.
    pub fn apply_update(self, u: UpdateTodoInput) -> (r: Todo)
        ensures
            r == updated(self, u),
    {
        let mut t = self;
        if let Some(x) = u.new_title {
            t.title = x;
        }
        if let Some(x) = u.new_description {
            t.description = Some(x);
        }
        if let Some(x) = u.new_priority {
            t.priority = x;
        }
        if let Some(x) = u.new_status {
            t.status = x;
        }
        if let Some(x) = u.new_due_date {
            t.due_date = Some(x);
        }
        if let Some(x) = u.new_tags {
            t.tags = Some(x);
        }
        if let Some(x) = u.new_parent_id {
            t.parent_id = Some(x);
        }
        if let Some(x) = u.new_subtasks {
            t.subtasks = Some(x);
        }
        if let Some(x) = u.new_recurrence {
            t.recurrence = Some(x);
        }
        t
    }
}

} // verus!
