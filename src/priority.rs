use vstd::prelude::*;

verus! {

/// How urgent a task is. The declaration order is the sort order:
/// `High` comes first.
#[derive(Debug, Clone, Copy, PartialEq, Eq, PartialOrd, Ord, Hash, Structural)]
pub enum Priority {
    High,
    Medium,
    Low,
}

impl Priority {
    /// Position of the priority in the order High, Medium, Low.
    pub open spec fn spec_rank(self) -> int {
        match self {
            Priority::High => 0,
            Priority::Medium => 1,
            Priority::Low => 2,
        }
    }

    /// The text shown for the priority.
    pub open spec fn spec_label(self) -> Seq<char> {
        match self {
            Priority::High => "High"@,
            Priority::Medium => "Medium"@,
            Priority::Low => "Low"@,
        }
    }

    /// No two priorities share a label.
    pub proof fn lemma_label_injective(self, other: Priority)
        requires
            self.spec_label() == other.spec_label(),
        ensures
            self == other,
    {
        reveal_strlit("High");
        reveal_strlit("Medium");
        reveal_strlit("Low");
        assert("High"@.len() == 4);
        assert("Medium"@.len() == 6);
        assert("Low"@.len() == 3);
        assert(self.spec_label().len() == other.spec_label().len());
    }

    pub fn rank(&self) -> (r: u8)
        ensures
            r as int == self.spec_rank(),
    {
        match self {
            Priority::High => 0,
            Priority::Medium => 1,
            Priority::Low => 2,
        }
    }

    pub fn label(&self) -> (r: &'static str)
        ensures
            r@ == self.spec_label(),
    {
        match self {
            Priority::High => "High",
            Priority::Medium => "Medium",
            Priority::Low => "Low",
        }
    }

    /// The priority picked by a numbered menu entry: 1 is High, 2 Medium,
    /// 3 Low; any other number picks nothing.
    pub fn from_choice(choice: u32) -> (r: Option<Priority>)
        ensures
            r == (if choice == 1 {
                Some(Priority::High)
            } else if choice == 2 {
                Some(Priority::Medium)
            } else if choice == 3 {
                Some(Priority::Low)
            } else {
                None
            }),
    {
        match choice {
            1 => Some(Priority::High),
            2 => Some(Priority::Medium),
            3 => Some(Priority::Low),
            _ => None,
        }
    }
}

} // verus!
