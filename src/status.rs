use vstd::prelude::*;

verus! {

/// Progress of a task. The declaration order is the sort order:
/// `Pending` comes first.
#[derive(Debug, Clone, Copy, PartialEq, Eq, PartialOrd, Ord, Hash, Structural)]
pub enum Status {
    Pending,
    InProgress,
    Done,
}

impl Status {
    /// Position of the status in the order Pending, InProgress, Done.
    pub open spec fn spec_rank(self) -> int {
        match self {
            Status::Pending => 0,
            Status::InProgress => 1,
            Status::Done => 2,
        }
    }

    /// The text shown for the status.
    pub open spec fn spec_label(self) -> Seq<char> {
        match self {
            Status::Pending => "Pending"@,
            Status::InProgress => "In Progress"@,
            Status::Done => "Done"@,
        }
    }

    /// The name of the variant, as written in code.
    pub open spec fn spec_name(self) -> Seq<char> {
        match self {
            Status::Pending => "Pending"@,
            Status::InProgress => "InProgress"@,
            Status::Done => "Done"@,
        }
    }

    /// No two statuses share a name.
    pub proof fn lemma_name_injective(self, other: Status)
        requires
            self.spec_name() == other.spec_name(),
        ensures
            self == other,
    {
        reveal_strlit("Pending");
        reveal_strlit("InProgress");
        reveal_strlit("Done");
        assert("Pending"@.len() == 7);
        assert("InProgress"@.len() == 10);
        assert("Done"@.len() == 4);
        assert(self.spec_name().len() == other.spec_name().len());
    }

    pub fn name(&self) -> (r: &'static str)
        ensures
            r@ == self.spec_name(),
    {
        match self {
            Status::Pending => "Pending",
            Status::InProgress => "InProgress",
            Status::Done => "Done",
        }
    }

    pub fn rank(&self) -> (r: u8)
        ensures
            r as int == self.spec_rank(),
    {
        match self {
            Status::Pending => 0,
            Status::InProgress => 1,
            Status::Done => 2,
        }
    }

    pub fn label(&self) -> (r: &'static str)
        ensures
            r@ == self.spec_label(),
    {
        match self {
            Status::Pending => "Pending",
            Status::InProgress => "In Progress",
            Status::Done => "Done",
        }
    }

    /// The status picked by a numbered menu entry: 1 is Pending,
    /// 2 InProgress, 3 Done; any other number picks nothing.
    pub fn from_choice(choice: u32) -> (r: Option<Status>)
        ensures
            r == (if choice == 1 {
                Some(Status::Pending)
            } else if choice == 2 {
                Some(Status::InProgress)
            } else if choice == 3 {
                Some(Status::Done)
            } else {
                None
            }),
    {
        match choice {
            1 => Some(Status::Pending),
            2 => Some(Status::InProgress),
            3 => Some(Status::Done),
            _ => None,
        }
    }
}

} // verus!
