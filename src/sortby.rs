use vstd::prelude::*;
use crate::text::{lower_of, lowercase, same_text};

verus! {

/// The orders in which the tasks of a store can be listed.
#[derive(Debug, Clone, Copy, PartialEq, Eq, PartialOrd, Ord, Hash, Structural)]
pub enum SortBy {
    Priority,
    Status,
    Created,
    DueDate,
    Overdue,
}

/// The order that a name, folded to lower case, picks: "priority",
/// "status", "created", "due-date" or "overdue"; any other name picks none.
pub open spec fn named_order(folded: Seq<char>) -> Option<SortBy> {
    if folded == "priority"@ {
        Some(SortBy::Priority)
    } else if folded == "status"@ {
        Some(SortBy::Status)
    } else if folded == "created"@ {
        Some(SortBy::Created)
    } else if folded == "due-date"@ {
        Some(SortBy::DueDate)
    } else if folded == "overdue"@ {
        Some(SortBy::Overdue)
    } else {
        None
    }
}

impl SortBy {
    /// The text shown for the order.
    pub open spec fn spec_label(self) -> Seq<char> {
        match self {
            SortBy::Priority => "Priority"@,
            SortBy::Status => "Status"@,
            SortBy::Created => "Created Date"@,
            SortBy::DueDate => "Due Date"@,
            SortBy::Overdue => "Overdue"@,
        }
    }

    pub fn label(&self) -> (r: &'static str)
        ensures
            r@ == self.spec_label(),
    {
        match self {
            SortBy::Priority => "Priority",
            SortBy::Status => "Status",
            SortBy::Created => "Created Date",
            SortBy::DueDate => "Due Date",
            SortBy::Overdue => "Overdue",
        }
    }

    /// The order picked by a numbered menu entry, 1 to 5 in declaration
    /// order; any other number picks none.
    pub open spec fn spec_from_choice(choice: u32) -> Option<SortBy> {
        if choice == 1 {
            Some(SortBy::Priority)
        } else if choice == 2 {
            Some(SortBy::Status)
        } else if choice == 3 {
            Some(SortBy::Created)
        } else if choice == 4 {
            Some(SortBy::DueDate)
        } else if choice == 5 {
            Some(SortBy::Overdue)
        } else {
            None
        }
    }

    pub fn from_choice(choice: u32) -> (r: Option<SortBy>)
        ensures
            r == SortBy::spec_from_choice(choice),
    {
        match choice {
            1 => Some(SortBy::Priority),
            2 => Some(SortBy::Status),
            3 => Some(SortBy::Created),
            4 => Some(SortBy::DueDate),
            5 => Some(SortBy::Overdue),
            _ => None,
        }
    }

    /// The entry numbered `choice` of the sorting menu: 1 to 5 pick an order
    /// as `from_choice` does, 6 goes back (`None`), and any other number
    /// falls back to creation order, the flag telling that it did.
    pub fn from_menu(choice: u32) -> (r: Option<(SortBy, bool)>)
        ensures
            choice == 6 ==> r is None,
            choice != 6 ==> match SortBy::spec_from_choice(choice) {
                Some(o) => r == Some((o, false)),
                None => r == Some((SortBy::Created, true)),
            },
    {
        if choice == 6 {
            return None;
        }
        match SortBy::from_choice(choice) {
            Some(o) => Some((o, false)),
            None => Some((SortBy::Created, true)),
        }
    }

    /// The order that `name` picks, without regard to case.
    pub fn from_name(name: &str) -> (r: Option<SortBy>)
        ensures
            r == named_order(lower_of(name@)),
    {
        let folded = lowercase(name);
        let f = folded.as_str();
        if same_text(f, "priority") {
            Some(SortBy::Priority)
        } else if same_text(f, "status") {
            Some(SortBy::Status)
        } else if same_text(f, "created") {
            Some(SortBy::Created)
        } else if same_text(f, "due-date") {
            Some(SortBy::DueDate)
        } else if same_text(f, "overdue") {
            Some(SortBy::Overdue)
        } else {
            None
        }
    }

    /// The order that `name` picks, falling back to creation order for a
    /// name that picks none; the flag tells whether the fallback was taken.
    pub fn from_name_or_created(name: &str) -> (r: (SortBy, bool))
        ensures
            match named_order(lower_of(name@)) {
                Some(o) => r == (o, false),
                None => r == (SortBy::Created, true),
            },
    {
        match SortBy::from_name(name) {
            Some(o) => (o, false),
            None => (SortBy::Created, true),
        }
    }
}

} // verus!
