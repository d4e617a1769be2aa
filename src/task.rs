//! A plain task record: identifier, title, description, priority, status.
use vstd::prelude::*;
use crate::ids::{fresh_id, format_id, id_text};
use crate::priority::Priority;
use crate::status::Status;

verus! {

#[derive(Debug, Clone, PartialEq)]
pub struct Task {
    id: u128,
    title: String,
    description: String,
    priority: Priority,
    status: Status,
}

impl Task {
    pub closed spec fn spec_id(self) -> u128 {
        self.id
    }

    pub closed spec fn spec_title(self) -> Seq<char> {
        self.title@
    }

    pub closed spec fn spec_description(self) -> Seq<char> {
        self.description@
    }

    pub closed spec fn spec_priority(self) -> Priority {
        self.priority
    }

    pub closed spec fn spec_status(self) -> Status {
        self.status
    }

    /// The multi-line description of the task: one labelled line for each
    /// field.
    pub open spec fn spec_render(self) -> Seq<char> {
        "ID: "@ + id_text(self.spec_id()) + "\nTitle: "@ + self.spec_title() + "\nDescription: "@
            + self.spec_description() + "\nPriority: "@ + self.spec_priority().spec_label()
            + "\nStatus: "@ + self.spec_status().spec_name() + "\n"@
    }

    /// A task with a fresh random identifier.
    pub fn new(title: String, description: String, priority: Priority, status: Status) -> (r: Task)
        ensures
            r.spec_title() == title@,
            r.spec_description() == description@,
            r.spec_priority() == priority,
            r.spec_status() == status,
    {
        Task { id: fresh_id(), title, description, priority, status }
    }

    pub fn id(&self) -> (r: u128)
        ensures
            r == self.spec_id(),
    {
        self.id
    }

    pub fn title(&self) -> (r: &str)
        ensures
            r@ == self.spec_title(),
    {
        self.title.as_str()
    }

    pub fn description(&self) -> (r: &str)
        ensures
            r@ == self.spec_description(),
    {
        self.description.as_str()
    }

    pub fn priority(&self) -> (r: Priority)
        ensures
            r == self.spec_priority(),
    {
        self.priority
    }

    pub fn status(&self) -> (r: Status)
        ensures
            r == self.spec_status(),
    {
        self.status
    }

    pub fn render(&self) -> (r: String)
        ensures
            r@ == self.spec_render(),
    {
        let mut s = "ID: ".to_string();
        s.append(format_id(self.id).as_str());
        s.append("\nTitle: ");
        s.append(self.title.as_str());
        s.append("\nDescription: ");
        s.append(self.description.as_str());
        s.append("\nPriority: ");
        s.append(self.priority.label());
        s.append("\nStatus: ");
        s.append(self.status.name());
        s.append("\n");
        s
    }
}

} // verus!
