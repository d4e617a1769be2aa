use vstd::prelude::*;
use crate::text::{lower_of, lowercase, same_text};

verus! {

/// How a task repeats.
#[derive(Debug, Clone, PartialEq, Eq, PartialOrd)]
pub enum Recurrence {
    Daily,
    Weekly,
    Custom(String),
}

/// The recurrence that a text names, once folded to lower case: "daily",
/// "weekly", or any other text, which becomes a custom rule.
pub open spec fn names_recurrence(folded: Seq<char>, r: Recurrence) -> bool {
    match r {
        Recurrence::Daily => folded == "daily"@,
        Recurrence::Weekly => folded == "weekly"@,
        Recurrence::Custom(t) => t@ == folded && folded != "daily"@ && folded != "weekly"@,
    }
}

impl Recurrence {
    /// Two recurrences are the same rule.
    pub open spec fn spec_same(self, other: Recurrence) -> bool {
        match (self, other) {
            (Recurrence::Daily, Recurrence::Daily) => true,
            (Recurrence::Weekly, Recurrence::Weekly) => true,
            (Recurrence::Custom(a), Recurrence::Custom(b)) => a@ == b@,
            _ => false,
        }
    }

    /// The text shown for the recurrence.
    pub open spec fn spec_label(self) -> Seq<char> {
        match self {
            Recurrence::Daily => "Daily"@,
            Recurrence::Weekly => "Weekly"@,
            Recurrence::Custom(t) => "Custom("@ + t@ + ")"@,
        }
    }

    pub fn same_as(&self, other: &Recurrence) -> (r: bool)
        ensures
            r == self.spec_same(*other),
    {
        match (self, other) {
            (Recurrence::Daily, Recurrence::Daily) => true,
            (Recurrence::Weekly, Recurrence::Weekly) => true,
            (Recurrence::Custom(a), Recurrence::Custom(b)) => same_text(a.as_str(), b.as_str()),
            _ => false,
        }
    }

    /// A copy of the recurrence.
    pub fn duplicate(&self) -> (r: Recurrence)
        ensures
            r == *self,
    {
        match self {
            Recurrence::Daily => Recurrence::Daily,
            Recurrence::Weekly => Recurrence::Weekly,
            Recurrence::Custom(t) => Recurrence::Custom(t.clone()),
        }
    }

    pub fn label(&self) -> (r: String)
        ensures
            r@ == self.spec_label(),
    {
        match self {
            Recurrence::Daily => "Daily".to_string(),
            Recurrence::Weekly => "Weekly".to_string(),
            Recurrence::Custom(t) => {
                let mut s = "Custom(".to_string();
                s.append(t.as_str());
                s.append(")");
                s
            },
        }
    }

    /// Whether a numbered entry of the recurrence menu asks for the text of
    /// a custom rule: entry 3 does.
    pub fn asks_custom_text(choice: u32) -> (r: bool)
        ensures
            r == (choice == 3),
    {
        choice == 3
    }

    /// The recurrence picked by a numbered menu entry: 1 is Daily, 2 Weekly,
    /// 3 a custom rule with the text typed for it, or none if none was
    /// typed. Any other number is no entry (`None`).
    pub fn from_choice(choice: u32, custom: Option<String>) -> (r: Option<Option<Recurrence>>)
        ensures
            choice == 1 ==> r == Some(Some(Recurrence::Daily)),
            choice == 2 ==> r == Some(Some(Recurrence::Weekly)),
            choice == 3 ==> r == Some(
                match custom {
                    Some(t) => Some(Recurrence::Custom(t)),
                    None => None,
                },
            ),
            choice != 1 && choice != 2 && choice != 3 ==> r is None,
    {
        match choice {
            1 => Some(Some(Recurrence::Daily)),
            2 => Some(Some(Recurrence::Weekly)),
            3 => match custom {
                Some(t) => Some(Some(Recurrence::Custom(t))),
                None => Some(None),
            },
            _ => None,
        }
    }

    /// Reads a recurrence from text, ignoring case: "daily" and "weekly"
    /// name the fixed rules, any other text is kept, lower-cased, as a
    /// custom rule.
    pub fn from_text(s: &str) -> (r: Recurrence)
        ensures
            names_recurrence(lower_of(s@), r),
    {
        let folded = lowercase(s);
        if same_text(folded.as_str(), "daily") {
            Recurrence::Daily
        } else if same_text(folded.as_str(), "weekly") {
            Recurrence::Weekly
        } else {
            Recurrence::Custom(folded)
        }
    }
}

impl std::str::FromStr for Recurrence {
    type Err = String;

    fn from_str(s: &str) -> Result<Recurrence, String> {
        Ok(Recurrence::from_text(s))
    }
}

} // verus!
