//! Which tasks call for a reminder, and what the reminder says.
use vstd::prelude::*;
use crate::todo::Todo;

verus! {

/// A reminder for a task whose due date has come.
#[derive(Debug, Clone, Copy, PartialEq, Eq, Structural)]
pub enum DueNotice {
    /// Due exactly now.
    Due,
    /// Due before now.
    Overdue,
}

/// The reminder task `t` calls for at `now`: none before its due date, or
/// without one.
pub open spec fn notice_at(t: Todo, now: i64) -> Option<DueNotice> {
    match t.due_date {
        Some(d) => if d < now {
            Some(DueNotice::Overdue)
        } else if d == now {
            Some(DueNotice::Due)
        } else {
            None
        },
        None => None,
    }
}

impl DueNotice {
    pub open spec fn spec_word(self) -> Seq<char> {
        match self {
            DueNotice::Due => "Due"@,
            DueNotice::Overdue => "Overdue"@,
        }
    }

    pub fn word(&self) -> (r: &'static str)
        ensures
            r@ == self.spec_word(),
    {
        match self {
            DueNotice::Due => "Due",
            DueNotice::Overdue => "Overdue",
        }
    }
}

pub fn notice_for(t: &Todo, now: i64) -> (r: Option<DueNotice>)
    ensures
        r == notice_at(*t, now),
{
    match t.due_date {
        Some(d) => if d < now {
            Some(DueNotice::Overdue)
        } else if d == now {
            Some(DueNotice::Due)
        } else {
            None
        },
        None => None,
    }
}

/// The headline of a reminder: the kind, then the title.
pub fn notice_title(t: &Todo, kind: DueNotice) -> (r: String)
    ensures
        r@ == kind.spec_word() + ": "@ + t.title@,
{
    let mut s = kind.word().to_string();
    s.append(": ");
    s.append(t.title.as_str());
    s
}

/// The text of a reminder: the description (or a note that there is
/// none), then the priority, the status and `due_text`, one to a line.
pub fn notice_body(t: &Todo, due_text: &str) -> (r: String)
    ensures
        r@ == match t.description {
            Some(d) => d@,
            None => "No description provided"@,
        } + "\nPriority: "@ + t.priority.spec_label() + "\nStatus: "@ + t.status.spec_label()
            + "\nDue: "@ + due_text@,
{
    let mut s = match &t.description {
        Some(d) => d.clone(),
        None => "No description provided".to_string(),
    };
    s.append("\nPriority: ");
    s.append(t.priority.label());
    s.append("\nStatus: ");
    s.append(t.status.label());
    s.append("\nDue: ");
    s.append(due_text);
    s
}

} // verus!
