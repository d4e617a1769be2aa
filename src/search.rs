//! Filtering a store by search criteria.
use vstd::prelude::*;
use std::collections::HashMap;
use crate::ids::{parse_id, parsed_id};
use crate::input::SearchTodoInput;
use crate::listing::{collect_refs, lists_store};
use crate::priority::Priority;
use crate::recurrence::Recurrence;
use crate::status::Status;
use crate::store::store_wf;
use crate::text::{all_ascii, ascii_lower, contains_text, lower_of, lowercase, occurs_in, same_text};
use crate::todo::Todo;

verus! {

/// Why a search could not be run.
#[derive(Debug, Clone, Copy, PartialEq, Eq, Structural)]
pub enum SearchError {
    /// The identifier criterion does not spell an identifier.
    InvalidId,
}

/// Some tag of `tags` reads `tag`.
pub open spec fn has_tag(tags: Seq<String>, tag: String) -> bool {
    exists|j: int| 0 <= j < tags.len() && #[trigger] tags[j]@ == tag@
}

/// The task carries tags, and each of `wanted` among them.
pub open spec fn carries_tags(tags: Option<Vec<String>>, wanted: Seq<String>) -> bool {
    match tags {
        Some(ts) => forall|i: int| 0 <= i < wanted.len() ==> has_tag(ts@, #[trigger] wanted[i]),
        None => false,
    }
}

/// Task `t` meets the criteria `c`, given the identifier that `c` names
/// (`id`), the lower-cased title piece (`folded_query`) and the lower-cased
/// title of the task (`folded_title`).
pub open spec fn meets(
    t: Todo,
    c: SearchTodoInput,
    id: Option<u128>,
    folded_query: Option<Seq<char>>,
    folded_title: Seq<char>,
) -> bool {
    &&& (id matches Some(i) ==> t.id == i)
    &&& (folded_query matches Some(q) ==> occurs_in(q, folded_title))
    &&& (c.priority matches Some(p) ==> t.priority == p)
    &&& (c.status matches Some(s) ==> t.status == s)
    &&& (c.due_date matches Some(d) ==> t.due_date == Some(d))
    &&& (c.recurrence matches Some(r) ==> (t.recurrence matches Some(x) && x.spec_same(r)))
    &&& (c.tags matches Some(w) ==> carries_tags(t.tags, w@))
    &&& (c.parent_id matches Some(p) ==> t.parent_id == Some(p))
}

/// The lower-cased title piece of the criteria, if they give one.
pub open spec fn folded_query_of(c: SearchTodoInput) -> Option<Seq<char>> {
    match c.title {
        Some(q) => Some(lower_of(q@)),
        None => None,
    }
}

/// Task `t` meets the criteria `c`, with `id` as the identifier criterion.
pub open spec fn selected(t: Todo, c: SearchTodoInput, id: Option<u128>) -> bool {
    meets(t, c, id, folded_query_of(c), lower_of(t.title@))
}

/// `s` holds once each task of `m` that meets `c` (with `id` as the
/// identifier criterion), and nothing else.
pub open spec fn lists_selected(
    s: Seq<&Todo>,
    m: Map<u128, Todo>,
    c: SearchTodoInput,
    id: Option<u128>,
) -> bool {
    &&& forall|i: int|
        0 <= i < s.len() ==> #[trigger] m.contains_key(s[i].id) && m[s[i].id] == *s[i] && selected(
            *s[i],
            c,
            id,
        )
    &&& forall|i: int, j: int|
        0 <= i < j < s.len() ==> (#[trigger] s[i]).id != (#[trigger] s[j]).id
    &&& forall|k: u128|
        #[trigger] m.contains_key(k) && selected(m[k], c, id) ==> exists|i: int|
            0 <= i < s.len() && s[i].id == k
}

/// On ASCII text, case folding turns capitals `A` to `Z` into `a` to `z`:
/// so it is for the title piece of `c` and for every title of `m`.
pub open spec fn folds_ascii(m: Map<u128, Todo>, c: SearchTodoInput) -> bool {
    &&& match c.title {
        Some(q) => all_ascii(q@) ==> lower_of(q@) == ascii_lower(q@),
        None => true,
    }
    &&& forall|k: u128|
        #[trigger] m.contains_key(k) && all_ascii(m[k].title@) ==> lower_of(m[k].title@)
            == ascii_lower(m[k].title@)
}

/// The title search ignores case on ASCII text: where case folding acts on
/// the query and the titles as the search reports, a task of the store is
/// selected by a title query exactly when the query, its capitals lowered,
/// occurs in the title, its capitals lowered.
pub proof fn title_search_ignores_ascii_case(m: Map<u128, Todo>, query: String, k: u128)
    requires
        folds_ascii(m, (SearchTodoInput { title: Some(query), ..SearchTodoInput::spec_any() })),
        m.contains_key(k),
        all_ascii(query@),
        all_ascii(m[k].title@),
    ensures
        selected(m[k], (SearchTodoInput { title: Some(query), ..SearchTodoInput::spec_any() }), None)
            <==> occurs_in(ascii_lower(query@), ascii_lower(m[k].title@)),
{
}

/// Whether a lower-cased title holds a lower-cased piece of text.
pub fn title_matches_folded(folded_query: &str, folded_title: &str) -> (r: bool)
    ensures
        r == occurs_in(folded_query@, folded_title@),
{
    contains_text(folded_title, folded_query)
}

fn has_tag_exec(tags: &Vec<String>, tag: &String) -> (r: bool)
    ensures
        r == has_tag(tags@, *tag),
{
    let mut j: usize = 0;
    while j < tags.len()
        invariant
            j <= tags@.len(),
            forall|k: int| 0 <= k < j ==> tags@[k]@ != tag@,
        decreases tags@.len() - j,
    {
        if same_text(tags[j].as_str(), tag.as_str()) {
            return true;
        }
        j = j + 1;
    }
    false
}

fn carries_tags_exec(tags: &Option<Vec<String>>, wanted: &Vec<String>) -> (r: bool)
    ensures
        r == carries_tags(*tags, wanted@),
{
    match tags {
        None => false,
        Some(ts) => {
            let mut i: usize = 0;
            while i < wanted.len()
                invariant
                    *tags == Some(*ts),
                    i <= wanted@.len(),
                    forall|k: int| 0 <= k < i ==> has_tag(ts@, #[trigger] wanted@[k]),
                decreases wanted@.len() - i,
            {
                if !has_tag_exec(ts, &wanted[i]) {
                    assert(!has_tag(ts@, wanted@[i as int]));
                    return false;
                }
                i = i + 1;
            }
            true
        },
    }
}

/// Whether task `t` meets the criteria `c`, given the identifier, the
/// lower-cased title piece and the lower-cased title of the task.
pub fn meets_criteria(
    t: &Todo,
    c: &SearchTodoInput,
    id: Option<u128>,
    folded_query: Option<&str>,
    folded_title: &str,
) -> (r: bool)
    ensures
        r == meets(
            *t,
            *c,
            id,
            match folded_query {
                Some(q) => Some(q@),
                None => None,
            },
            folded_title@,
        ),
{
    if let Some(i) = id {
        if t.id != i {
            return false;
        }
    }
    if let Some(q) = folded_query {
        if !title_matches_folded(q, folded_title) {
            return false;
        }
    }
    if let Some(p) = c.priority {
        if t.priority != p {
            return false;
        }
    }
    if let Some(s) = c.status {
        if t.status != s {
            return false;
        }
    }
    if let Some(d) = c.due_date {
        match t.due_date {
            Some(x) => {
                if x != d {
                    return false;
                }
            },
            None => {
                return false;
            },
        }
    }
    if let Some(r) = &c.recurrence {
        match &t.recurrence {
            Some(x) => {
                if !x.same_as(r) {
                    return false;
                }
            },
            None => {
                return false;
            },
        }
    }
    if let Some(w) = &c.tags {
        if !carries_tags_exec(&t.tags, w) {
            return false;
        }
    }
    if let Some(p) = c.parent_id {
        match t.parent_id {
            Some(x) => {
                if x != p {
                    return false;
                }
            },
            None => {
                return false;
            },
        }
    }
    true
}

/// The tasks of the store that meet `c`, with `id` as the identifier
/// criterion in place of the one `c` gives as text.
pub fn select_todos<'a>(todos: &'a HashMap<u128, Todo>, c: &SearchTodoInput, id: Option<u128>) -> (r:
    Vec<&'a Todo>)
    requires
        store_wf(todos@),
    ensures
        lists_selected(r@, todos@, *c, id),
        folds_ascii(todos@, *c),
{
    let ghost m = todos@;
    let all = collect_refs(todos);
    let folded: Option<String> = match &c.title {
        Some(q) => Some(lowercase(q.as_str())),
        None => None,
    };
    let mut out: Vec<&Todo> = Vec::new();
    let mut n: usize = 0;
    while n < all.len()
        invariant
            n <= all@.len(),
            lists_store(all@, m),
            match folded {
                Some(f) => folded_query_of(*c) == Some(f@),
                None => folded_query_of(*c) is None,
            },
            match c.title {
                Some(q) => all_ascii(q@) ==> lower_of(q@) == ascii_lower(q@),
                None => true,
            },
            forall|j: int|
                0 <= j < n && all_ascii(all@[j].title@) ==> lower_of((#[trigger] all@[j]).title@)
                    == ascii_lower(all@[j].title@),
            forall|i: int|
                0 <= i < out@.len() ==> #[trigger] m.contains_key(out@[i].id) && m[out@[i].id]
                    == *out@[i] && selected(*out@[i], *c, id),
            forall|i: int|
                0 <= i < out@.len() ==> exists|j: int|
                    0 <= j < n && #[trigger] out@[i].id == all@[j].id,
            forall|j: int|
                #![trigger all@[j]]
                0 <= j < n && selected(*all@[j], *c, id) ==> exists|i: int|
                    0 <= i < out@.len() && #[trigger] out@[i].id == all@[j].id,
            forall|i: int, j: int| 0 <= i < j < out@.len() ==> out@[i].id != out@[j].id,
        decreases all@.len() - n,
    {
        let t = all[n];
        let ft = lowercase(t.title.as_str());
        let fq: Option<&str> = match &folded {
            Some(f) => Some(f.as_str()),
            None => None,
        };
        let ok = meets_criteria(t, c, id, fq, ft.as_str());
        assert(ok == selected(*t, *c, id));
        if ok {
            let ghost before = out@;
            out.push(t);
            proof {
                assert(m.contains_key(all@[n as int].id) && m[all@[n as int].id] == *all@[n as int]);
                assert(out@[before.len() as int] == t);
                assert forall|i: int| 0 <= i < before.len() implies out@[i] == before[i] by {}
                assert forall|i: int| 0 <= i < before.len() implies out@[i].id != t.id by {
                    let j = choose|j: int| 0 <= j < n && #[trigger] before[i].id == all@[j].id;
                    assert(out@[i] == before[i]);
                }
                assert forall|i: int| 0 <= i < out@.len() implies exists|j: int|
                    0 <= j < n + 1 && #[trigger] out@[i].id == all@[j].id by {
                    if i < before.len() {
                        assert(out@[i] == before[i]);
                        let j = choose|j: int| 0 <= j < n && #[trigger] before[i].id == all@[j].id;
                    } else {
                        assert(out@[i].id == all@[n as int].id);
                    }
                }
                assert forall|j: int|
                    #![trigger all@[j]]
                    0 <= j < n + 1 && selected(*all@[j], *c, id) implies exists|i: int|
                    0 <= i < out@.len() && #[trigger] out@[i].id == all@[j].id by {
                    if j < n {
                        let i = choose|i: int| 0 <= i < before.len() && #[trigger] before[i].id == all@[j].id;
                        assert(out@[i] == before[i]);
                    } else {
                        assert(out@[before.len() as int] == t);
                    }
                }
            }
        }
        n = n + 1;
    }
    proof {
        assert forall|k: u128|
            #[trigger] m.contains_key(k) && all_ascii(m[k].title@) implies lower_of(m[k].title@)
                == ascii_lower(m[k].title@) by {
            let j = choose|j: int| 0 <= j < all@.len() && all@[j].id == k;
            assert(*all@[j] == m[k]);
        }
        assert forall|k: u128|
            #[trigger] m.contains_key(k) && selected(m[k], *c, id) implies exists|i: int|
            0 <= i < out@.len() && out@[i].id == k by {
            let j = choose|j: int| 0 <= j < all@.len() && all@[j].id == k;
            assert(*all@[j] == m[k]);
            let i = choose|i: int| 0 <= i < out@.len() && #[trigger] out@[i].id == all@[j].id;
        }
    }
    out
}

/// The tasks of the store that meet every criterion `c` gives. Fails if
/// the identifier criterion does not spell an identifier.
pub fn search_todos<'a>(todos: &'a HashMap<u128, Todo>, c: &SearchTodoInput) -> (r: Result<
    Vec<&'a Todo>,
    SearchError,
>)
    requires
        store_wf(todos@),
    ensures
        match c.id {
            Some(s) => match parsed_id(s@) {
                Some(i) => r matches Ok(v) && lists_selected(v@, todos@, *c, Some(i)),
                None => r == Err::<Vec<&Todo>, SearchError>(SearchError::InvalidId),
            },
            None => r matches Ok(v) && lists_selected(v@, todos@, *c, None),
        },
        r is Ok ==> folds_ascii(todos@, *c),
{
    match &c.id {
        Some(s) => match parse_id(s.as_str()) {
            Some(i) => Ok(select_todos(todos, c, Some(i))),
            None => Err(SearchError::InvalidId),
        },
        None => Ok(select_todos(todos, c, None)),
    }
}

/// The task of the store with identifier `id`, as a list of at most one.
pub fn search_todo_by_id<'a>(todos: &'a HashMap<u128, Todo>, id: u128) -> (r: Vec<&'a Todo>)
    requires
        store_wf(todos@),
    ensures
        lists_selected(r@, todos@, SearchTodoInput::spec_any(), Some(id)),
{
    select_todos(todos, &SearchTodoInput::any(), Some(id))
}

/// The tasks of the store whose title holds `query`, without regard to case.
pub fn search_todo_by_title<'a>(todos: &'a HashMap<u128, Todo>, query: String) -> (r: Vec<&'a Todo>)
    requires
        store_wf(todos@),
    ensures
        lists_selected(
            r@,
            todos@,
            (SearchTodoInput { title: Some(query), ..SearchTodoInput::spec_any() }),
            None,
        ),
        folds_ascii(todos@, (SearchTodoInput { title: Some(query), ..SearchTodoInput::spec_any() })),
{
    let mut c = SearchTodoInput::any();
    c.title = Some(query);
    select_todos(todos, &c, None)
}

/// The tasks of the store with priority `priority`.
pub fn search_todo_by_priority<'a>(todos: &'a HashMap<u128, Todo>, priority: Priority) -> (r: Vec<
    &'a Todo,
>)
    requires
        store_wf(todos@),
    ensures
        lists_selected(
            r@,
            todos@,
            (SearchTodoInput { priority: Some(priority), ..SearchTodoInput::spec_any() }),
            None,
        ),
{
    let mut c = SearchTodoInput::any();
    c.priority = Some(priority);
    select_todos(todos, &c, None)
}

/// The tasks of the store with status `status`.
pub fn search_todo_by_status<'a>(todos: &'a HashMap<u128, Todo>, status: Status) -> (r: Vec<
    &'a Todo,
>)
    requires
        store_wf(todos@),
    ensures
        lists_selected(
            r@,
            todos@,
            (SearchTodoInput { status: Some(status), ..SearchTodoInput::spec_any() }),
            None,
        ),
{
    let mut c = SearchTodoInput::any();
    c.status = Some(status);
    select_todos(todos, &c, None)
}

} // verus!
