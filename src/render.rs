//! The plain texts that describe a task's fields.
use vstd::prelude::*;
use crate::ids::{format_id, id_text};
use crate::text::texts;
use crate::todo::Todo;

verus! {

/// The texts of `ps`, with `sep` between each two.
pub open spec fn joined(ps: Seq<Seq<char>>, sep: Seq<char>) -> Seq<char>
    decreases ps.len(),
{
    if ps.len() == 0 {
        Seq::<char>::empty()
    } else if ps.len() == 1 {
        ps[0]
    } else {
        joined(ps.drop_last(), sep) + sep + ps.last()
    }
}

/// The texts of a list of identifiers.
pub open spec fn id_texts(ids: Seq<u128>) -> Seq<Seq<char>> {
    ids.map_values(|i: u128| id_text(i))
}

/// The texts of `parts`, with `sep` between each two.
pub fn join_texts(parts: &Vec<String>, sep: &str) -> (r: String)
    ensures
        r@ == joined(texts(parts@), sep@),
{
    let mut s = String::new();
    let mut i: usize = 0;
    while i < parts.len()
        invariant
            i <= parts@.len(),
            s@ == joined(texts(parts@).take(i as int), sep@),
        decreases parts@.len() - i,
    {
        assert(texts(parts@).take(i + 1).drop_last() =~= texts(parts@).take(i as int));
        if i > 0 {
            s.append(sep);
        }
        s.append(parts[i].as_str());
        proof {
            if i == 0 {
                assert(s@ =~= texts(parts@).take(1)[0]);
            }
        }
        i = i + 1;
    }
    assert(texts(parts@).take(i as int) =~= texts(parts@));
    s
}

impl Todo {
    /// The description, or "None".
    pub fn description_text(&self) -> (r: String)
        ensures
            r@ == match self.description {
                Some(d) => d@,
                None => "None"@,
            },
    {
        match &self.description {
            Some(d) => d.clone(),
            None => "None".to_string(),
        }
    }

    /// The tags, separated by ", ", or "None".
    pub fn tags_text(&self) -> (r: String)
        ensures
            r@ == match self.tags {
                Some(ts) => joined(texts(ts@), ", "@),
                None => "None"@,
            },
    {
        match &self.tags {
            Some(ts) => join_texts(ts, ", "),
            None => "None".to_string(),
        }
    }

    /// The subtask identifiers, separated by ", ", or "None" when there
    /// are none.
    pub fn subtasks_text(&self) -> (r: String)
        ensures
            r@ == match self.subtasks {
                Some(ids) => if ids@.len() == 0 {
                    "None"@
                } else {
                    joined(id_texts(ids@), ", "@)
                },
                None => "None"@,
            },
    {
        match &self.subtasks {
            Some(ids) => {
                if ids.len() == 0 {
                    return "None".to_string();
                }
                let mut parts: Vec<String> = Vec::new();
                let mut i: usize = 0;
                while i < ids.len()
                    invariant
                        i <= ids@.len(),
                        parts@.len() == i,
                        forall|k: int| 0 <= k < i ==> (#[trigger] parts@[k])@ == id_text(ids@[k]),
                    decreases ids@.len() - i,
                {
                    parts.push(format_id(ids[i]));
                    i = i + 1;
                }
                assert(texts(parts@) =~= id_texts(ids@));
                join_texts(&parts, ", ")
            },
            None => "None".to_string(),
        }
    }

    /// The parent's identifier, or "None".
    pub fn parent_text(&self) -> (r: String)
        ensures
            r@ == match self.parent_id {
                Some(p) => id_text(p),
                None => "None"@,
            },
    {
        match self.parent_id {
            Some(p) => format_id(p),
            None => "None".to_string(),
        }
    }

    /// The recurrence, or "None".
    pub fn recurrence_text(&self) -> (r: String)
        ensures
            r@ == match self.recurrence {
                Some(x) => x.spec_label(),
                None => "None"@,
            },
    {
        match &self.recurrence {
            Some(x) => x.label(),
            None => "None".to_string(),
        }
    }
}

} // verus!
