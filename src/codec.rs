//! The stored form of the store: a JSON document, as a tree of values.
//! Each task is an object of named fields; the store is an object that
//! files each task under its identifier.
use vstd::prelude::*;
use crate::clock::{
    in_chrono_range, naive_stamp, naive_stamp_text, parse_naive_stamp, parse_utc_stamp,
    parsed_naive_stamp, parsed_utc_stamp, utc_stamp, utc_stamp_text,
};
use crate::ids::{format_id, id_text, parse_id, parsed_id};
use crate::priority::Priority;
use crate::recurrence::Recurrence;
use crate::status::Status;
use crate::text::same_text;
use crate::todo::Todo;
use crate::listing::collect_refs;
use crate::store::store_wf;
use std::collections::HashMap;

verus! {

/// A JSON value, as far as the stored form needs: numbers do not occur.
pub enum Json {
    Null,
    Text(String),
    List(Vec<Json>),
    Object(Vec<(String, Json)>),
}

/// The value of the first field named `name`, if any.
pub open spec fn field_of(es: Seq<(String, Json)>, name: Seq<char>) -> Option<Json>
    decreases es.len(),
{
    if es.len() == 0 {
        None
    } else if es[0].0@ == name {
        Some(es[0].1)
    } else {
        field_of(es.drop_first(), name)
    }
}

/// `j` is a text reading `s`.
pub open spec fn text_is(j: Json, s: Seq<char>) -> bool {
    match j {
        Json::Text(x) => x@ == s,
        _ => false,
    }
}

/// `j` is a text that spells the identifier `id`.
pub open spec fn id_is(j: Json, id: u128) -> bool {
    match j {
        Json::Text(x) => parsed_id(x@) == Some(id),
        _ => false,
    }
}

/// `j` stores the optional text `o`: null for none.
pub open spec fn opt_text_is(j: Json, o: Option<String>) -> bool {
    match o {
        Some(d) => text_is(j, d@),
        None => j is Null,
    }
}

/// `j` stores the optional identifier `o`.
pub open spec fn opt_id_is(j: Json, o: Option<u128>) -> bool {
    match o {
        Some(i) => id_is(j, i),
        None => j is Null,
    }
}

/// `j` stores the optional list of texts `o`.
pub open spec fn opt_texts_is(j: Json, o: Option<Vec<String>>) -> bool {
    match o {
        Some(v) => match j {
            Json::List(items) => items@.len() == v@.len() && forall|i: int|
                0 <= i < v@.len() ==> text_is(#[trigger] items@[i], v@[i]@),
            _ => false,
        },
        None => j is Null,
    }
}

/// `j` stores the optional list of identifiers `o`.
pub open spec fn opt_ids_is(j: Json, o: Option<Vec<u128>>) -> bool {
    match o {
        Some(v) => match j {
            Json::List(items) => items@.len() == v@.len() && forall|i: int|
                0 <= i < v@.len() ==> id_is(#[trigger] items@[i], v@[i]),
            _ => false,
        },
        None => j is Null,
    }
}

/// `j` stores the optional recurrence `o`: the name of a fixed rule, or an
/// object with the single field "Custom" for a custom one.
pub open spec fn opt_recurrence_is(j: Json, o: Option<Recurrence>) -> bool {
    match o {
        Some(Recurrence::Daily) => text_is(j, "Daily"@),
        Some(Recurrence::Weekly) => text_is(j, "Weekly"@),
        Some(Recurrence::Custom(t)) => match j {
            Json::Object(fs) => fs@.len() == 1 && fs@[0].0@ == "Custom"@ && text_is(fs@[0].1, t@),
            _ => false,
        },
        None => j is Null,
    }
}

/// `j` stores the creation time `ms`.
pub open spec fn created_is(j: Json, ms: i64) -> bool {
    match j {
        Json::Text(x) => parsed_naive_stamp(x@) == Some(ms),
        _ => false,
    }
}

/// `j` stores the optional due date `o`.
pub open spec fn due_is(j: Json, o: Option<i64>) -> bool {
    match o {
        Some(d) => match j {
            Json::Text(x) => parsed_utc_stamp(x@) == Some(d),
            _ => false,
        },
        None => j is Null,
    }
}

/// The first field named `name` exists, and its value satisfies `p`.
pub open spec fn has_field(es: Seq<(String, Json)>, name: Seq<char>, p: spec_fn(Json) -> bool) -> bool {
    match field_of(es, name) {
        Some(v) => p(v),
        None => false,
    }
}

/// `j` is the stored form of task `t`, field by field.
pub open spec fn stores_todo(j: Json, t: Todo) -> bool {
    match j {
        Json::Object(es) => {
            &&& has_field(es@, "id"@, |v: Json| id_is(v, t.id))
            &&& has_field(es@, "title"@, |v: Json| text_is(v, t.title@))
            &&& has_field(es@, "description"@, |v: Json| opt_text_is(v, t.description))
            &&& has_field(es@, "priority"@, |v: Json| text_is(v, t.priority.spec_label()))
            &&& has_field(es@, "status"@, |v: Json| text_is(v, t.status.spec_name()))
            &&& has_field(es@, "created_at"@, |v: Json| created_is(v, t.created_at))
            &&& has_field(es@, "due_date"@, |v: Json| due_is(v, t.due_date))
            &&& has_field(es@, "tags"@, |v: Json| opt_texts_is(v, t.tags))
            &&& has_field(es@, "parent_id"@, |v: Json| opt_id_is(v, t.parent_id))
            &&& has_field(es@, "subtasks"@, |v: Json| opt_ids_is(v, t.subtasks))
            &&& has_field(es@, "recurrence"@, |v: Json| opt_recurrence_is(v, t.recurrence))
        },
        _ => false,
    }
}

/// `j` is a list of the texts of the identifiers `ids`.
pub open spec fn id_texts_are(j: Json, ids: Seq<u128>) -> bool {
    match j {
        Json::List(items) => items@.len() == ids.len() && forall|i: int|
            0 <= i < ids.len() ==> text_is(#[trigger] items@[i], id_text(ids[i])),
        _ => false,
    }
}

/// The identifiers and times of task `t` are written in `j` exactly as
/// `uuid` and `chrono` write them.
pub open spec fn spells_todo(j: Json, t: Todo) -> bool {
    match j {
        Json::Object(es) => {
            &&& has_field(es@, "id"@, |v: Json| text_is(v, id_text(t.id)))
            &&& has_field(es@, "created_at"@, |v: Json| text_is(v, naive_stamp_text(t.created_at)))
            &&& has_field(
                es@,
                "due_date"@,
                |v: Json|
                    match t.due_date {
                        Some(d) => text_is(v, utc_stamp_text(d)),
                        None => v is Null,
                    },
            )
            &&& has_field(
                es@,
                "parent_id"@,
                |v: Json|
                    match t.parent_id {
                        Some(p) => text_is(v, id_text(p)),
                        None => v is Null,
                    },
            )
            &&& has_field(
                es@,
                "subtasks"@,
                |v: Json|
                    match t.subtasks {
                        Some(ids) => id_texts_are(v, ids@),
                        None => v is Null,
                    },
            )
        },
        _ => false,
    }
}

/// Two optional texts read the same.
pub open spec fn same_opt_text(a: Option<String>, b: Option<String>) -> bool {
    match (a, b) {
        (Some(x), Some(y)) => x@ == y@,
        (None, None) => true,
        _ => false,
    }
}

/// Two optional lists hold the same texts.
pub open spec fn same_opt_texts(a: Option<Vec<String>>, b: Option<Vec<String>>) -> bool {
    match (a, b) {
        (Some(x), Some(y)) => x@.len() == y@.len() && forall|i: int|
            0 <= i < x@.len() ==> (#[trigger] x@[i])@ == y@[i]@,
        (None, None) => true,
        _ => false,
    }
}

/// Two optional lists hold the same identifiers.
pub open spec fn same_opt_ids(a: Option<Vec<u128>>, b: Option<Vec<u128>>) -> bool {
    match (a, b) {
        (Some(x), Some(y)) => x@ == y@,
        (None, None) => true,
        _ => false,
    }
}

/// Two optional recurrences are the same rule.
pub open spec fn same_opt_recurrence(a: Option<Recurrence>, b: Option<Recurrence>) -> bool {
    match (a, b) {
        (Some(x), Some(y)) => x.spec_same(y),
        (None, None) => true,
        _ => false,
    }
}

/// Two tasks agree field by field.
pub open spec fn same_fields(a: Todo, b: Todo) -> bool {
    &&& a.id == b.id
    &&& a.title@ == b.title@
    &&& same_opt_text(a.description, b.description)
    &&& a.priority == b.priority
    &&& a.status == b.status
    &&& a.created_at == b.created_at
    &&& a.due_date == b.due_date
    &&& same_opt_texts(a.tags, b.tags)
    &&& a.parent_id == b.parent_id
    &&& same_opt_ids(a.subtasks, b.subtasks)
    &&& same_opt_recurrence(a.recurrence, b.recurrence)
}

/// The stored form of a task determines every field of the task.
pub proof fn stored_form_determines_todo(j: Json, a: Todo, b: Todo)
    requires
        stores_todo(j, a),
        stores_todo(j, b),
    ensures
        same_fields(a, b),
{
    if let Json::Object(es) = j {
        let s = es@;
        assert(a.id == b.id);
        assert(a.title@ == b.title@);
        assert(same_opt_text(a.description, b.description));
        reveal_strlit("High");
        reveal_strlit("Medium");
        reveal_strlit("Low");
        reveal_strlit("Pending");
        reveal_strlit("InProgress");
        reveal_strlit("Done");
        reveal_strlit("Daily");
        reveal_strlit("Weekly");
        assert(a.priority.spec_label() == b.priority.spec_label());
        a.priority.lemma_label_injective(b.priority);
        assert(a.status.spec_name() == b.status.spec_name());
        a.status.lemma_name_injective(b.status);
        assert(a.created_at == b.created_at);
        assert(a.due_date == b.due_date);
        assert(a.parent_id == b.parent_id);
        assert("Daily"@.len() != "Weekly"@.len());
        assert(same_opt_recurrence(a.recurrence, b.recurrence));
        if let (Some(x), Some(y)) = (a.tags, b.tags) {
            let v = field_of(s, "tags"@)->0;
            assert forall|i: int| 0 <= i < x@.len() implies (#[trigger] x@[i])@ == y@[i]@ by {
                if let Json::List(items) = v {
                    assert(text_is(items@[i], x@[i]@));
                    assert(text_is(items@[i], y@[i]@));
                }
            }
        }
        if let (Some(x), Some(y)) = (a.subtasks, b.subtasks) {
            let v = field_of(s, "subtasks"@)->0;
            if let Json::List(items) = v {
                assert forall|i: int| 0 <= i < x@.len() implies x@[i] == y@[i] by {
                    assert(id_is(items@[i], x@[i]));
                    assert(id_is(items@[i], y@[i]));
                }
                assert(x@ =~= y@);
            }
        }
    }
}

/// The first field named `name` is the one at `i`.
pub proof fn field_of_first(es: Seq<(String, Json)>, name: Seq<char>, i: int)
    requires
        0 <= i < es.len(),
        es[i].0@ == name,
        forall|j: int| 0 <= j < i ==> es[j].0@ != name,
    ensures
        field_of(es, name) == Some(es[i].1),
    decreases i,
{
    if i > 0 {
        field_of_first(es.drop_first(), name, i - 1);
    }
}

/// The times of the task can be written: they lie in chrono's range.
pub open spec fn stamps_in_range(t: Todo) -> bool {
    &&& in_chrono_range(t.created_at)
    &&& (t.due_date matches Some(d) ==> in_chrono_range(d))
}

/// Whether the times of the task lie in chrono's range.
pub fn todo_stamps_in_range(t: &Todo) -> (r: bool)
    ensures
        r == stamps_in_range(*t),
{
    let lo: i64 = -8334601228800000;
    let hi: i64 = 8210266876799999;
    let created_ok = lo <= t.created_at && t.created_at <= hi;
    match t.due_date {
        Some(d) => created_ok && lo <= d && d <= hi,
        None => created_ok,
    }
}

/// The value of the first field named `name`, if any.
pub fn field<'a>(es: &'a Vec<(String, Json)>, name: &str) -> (r: Option<&'a Json>)
    ensures
        match r {
            Some(v) => field_of(es@, name@) == Some(*v),
            None => field_of(es@, name@) is None,
        },
{
    let mut i: usize = 0;
    assert(es@.subrange(0, es@.len() as int) =~= es@);
    while i < es.len()
        invariant
            i <= es@.len(),
            field_of(es@, name@) == field_of(es@.subrange(i as int, es@.len() as int), name@),
        decreases es@.len() - i,
    {
        let ghost rest = es@.subrange(i as int, es@.len() as int);
        assert(rest[0] == es@[i as int]);
        if same_text(es[i].0.as_str(), name) {
            return Some(&es[i].1);
        }
        assert(rest.drop_first() =~= es@.subrange(i + 1, es@.len() as int));
        i = i + 1;
    }
    assert(es@.subrange(i as int, es@.len() as int).len() == 0);
    None
}

fn read_text(v: &Json) -> (r: Option<String>)
    ensures
        match r {
            Some(s) => text_is(*v, s@),
            None => forall|s: Seq<char>| !text_is(*v, s),
        },
{
    match v {
        Json::Text(x) => Some(x.clone()),
        _ => None,
    }
}

fn read_opt_text(v: &Json) -> (r: Option<Option<String>>)
    ensures
        match r {
            Some(o) => opt_text_is(*v, o),
            None => forall|o: Option<String>| !opt_text_is(*v, o),
        },
{
    match v {
        Json::Null => Some(None),
        Json::Text(x) => Some(Some(x.clone())),
        _ => None,
    }
}

fn read_id(v: &Json) -> (r: Option<u128>)
    ensures
        match r {
            Some(i) => id_is(*v, i),
            None => forall|i: u128| !id_is(*v, i),
        },
{
    match v {
        Json::Text(x) => parse_id(x.as_str()),
        _ => None,
    }
}

fn read_opt_id(v: &Json) -> (r: Option<Option<u128>>)
    ensures
        match r {
            Some(o) => opt_id_is(*v, o),
            None => forall|o: Option<u128>| !opt_id_is(*v, o),
        },
{
    match v {
        Json::Null => Some(None),
        Json::Text(x) => match parse_id(x.as_str()) {
            Some(i) => Some(Some(i)),
            None => None,
        },
        _ => None,
    }
}

fn read_priority(v: &Json) -> (r: Option<Priority>)
    ensures
        match r {
            Some(p) => text_is(*v, p.spec_label()),
            None => forall|p: Priority| !text_is(*v, #[trigger] p.spec_label()),
        },
{
    match v {
        Json::Text(x) => {
            if same_text(x.as_str(), "High") {
                Some(Priority::High)
            } else if same_text(x.as_str(), "Medium") {
                Some(Priority::Medium)
            } else if same_text(x.as_str(), "Low") {
                Some(Priority::Low)
            } else {
                None
            }
        },
        _ => None,
    }
}

fn read_status(v: &Json) -> (r: Option<Status>)
    ensures
        match r {
            Some(s) => text_is(*v, s.spec_name()),
            None => forall|s: Status| !text_is(*v, #[trigger] s.spec_name()),
        },
{
    match v {
        Json::Text(x) => {
            if same_text(x.as_str(), "Pending") {
                Some(Status::Pending)
            } else if same_text(x.as_str(), "InProgress") {
                Some(Status::InProgress)
            } else if same_text(x.as_str(), "Done") {
                Some(Status::Done)
            } else {
                None
            }
        },
        _ => None,
    }
}

fn read_created(v: &Json) -> (r: Option<i64>)
    ensures
        match r {
            Some(ms) => created_is(*v, ms),
            None => forall|ms: i64| !created_is(*v, ms),
        },
{
    match v {
        Json::Text(x) => parse_naive_stamp(x.as_str()),
        _ => None,
    }
}

fn read_due(v: &Json) -> (r: Option<Option<i64>>)
    ensures
        match r {
            Some(o) => due_is(*v, o),
            None => forall|o: Option<i64>| !due_is(*v, o),
        },
{
    match v {
        Json::Null => Some(None),
        Json::Text(x) => match parse_utc_stamp(x.as_str()) {
            Some(d) => Some(Some(d)),
            None => None,
        },
        _ => None,
    }
}

fn read_opt_texts(v: &Json) -> (r: Option<Option<Vec<String>>>)
    ensures
        match r {
            Some(o) => opt_texts_is(*v, o),
            None => forall|o: Option<Vec<String>>| !opt_texts_is(*v, o),
        },
{
    match v {
        Json::Null => Some(None),
        Json::List(items) => {
            let mut out: Vec<String> = Vec::new();
            let mut i: usize = 0;
            while i < items.len()
                invariant
                    *v == Json::List(*items),
                    i <= items@.len(),
                    out@.len() == i,
                    forall|k: int| 0 <= k < i ==> text_is(#[trigger] items@[k], out@[k]@),
                decreases items@.len() - i,
            {
                match &items[i] {
                    Json::Text(x) => out.push(x.clone()),
                    _ => {
                        assert(forall|s: Seq<char>| !text_is(items@[i as int], s));
                        return None;
                    },
                }
                i = i + 1;
            }
            Some(Some(out))
        },
        _ => None,
    }
}

fn read_opt_ids(v: &Json) -> (r: Option<Option<Vec<u128>>>)
    ensures
        match r {
            Some(o) => opt_ids_is(*v, o),
            None => forall|o: Option<Vec<u128>>| !opt_ids_is(*v, o),
        },
{
    match v {
        Json::Null => Some(None),
        Json::List(items) => {
            let mut out: Vec<u128> = Vec::new();
            let mut i: usize = 0;
            while i < items.len()
                invariant
                    *v == Json::List(*items),
                    i <= items@.len(),
                    out@.len() == i,
                    forall|k: int| 0 <= k < i ==> id_is(#[trigger] items@[k], out@[k]),
                decreases items@.len() - i,
            {
                match read_id(&items[i]) {
                    Some(x) => out.push(x),
                    None => {
                        return None;
                    },
                }
                i = i + 1;
            }
            Some(Some(out))
        },
        _ => None,
    }
}

fn read_opt_recurrence(v: &Json) -> (r: Option<Option<Recurrence>>)
    ensures
        match r {
            Some(o) => opt_recurrence_is(*v, o),
            None => forall|o: Option<Recurrence>| !opt_recurrence_is(*v, o),
        },
{
    match v {
        Json::Null => Some(None),
        Json::Text(x) => {
            if same_text(x.as_str(), "Daily") {
                Some(Some(Recurrence::Daily))
            } else if same_text(x.as_str(), "Weekly") {
                Some(Some(Recurrence::Weekly))
            } else {
                None
            }
        },
        Json::Object(fs) => {
            if fs.len() != 1 || !same_text(fs[0].0.as_str(), "Custom") {
                return None;
            }
            match &fs[0].1 {
                Json::Text(x) => Some(Some(Recurrence::Custom(x.clone()))),
                _ => None,
            }
        },
        _ => None,
    }
}

/// The task that `j` stores, if `j` is the stored form of a task.
pub fn decode_todo(j: &Json) -> (r: Option<Todo>)
    ensures
        match r {
            Some(t) => stores_todo(*j, t),
            None => forall|t: Todo| !stores_todo(*j, t),
        },
{
    let es = match j {
        Json::Object(es) => es,
        _ => {
            return None;
        },
    };
    let id = match field(es, "id") {
        Some(v) => match read_id(v) {
            Some(x) => x,
            None => {
                return None;
            },
        },
        None => {
            return None;
        },
    };
    let title = match field(es, "title") {
        Some(v) => match read_text(v) {
            Some(x) => x,
            None => {
                return None;
            },
        },
        None => {
            return None;
        },
    };
    let description = match field(es, "description") {
        Some(v) => match read_opt_text(v) {
            Some(x) => x,
            None => {
                return None;
            },
        },
        None => {
            return None;
        },
    };
    let priority = match field(es, "priority") {
        Some(v) => match read_priority(v) {
            Some(x) => x,
            None => {
                return None;
            },
        },
        None => {
            return None;
        },
    };
    let status = match field(es, "status") {
        Some(v) => match read_status(v) {
            Some(x) => x,
            None => {
                return None;
            },
        },
        None => {
            return None;
        },
    };
    let created_at = match field(es, "created_at") {
        Some(v) => match read_created(v) {
            Some(x) => x,
            None => {
                return None;
            },
        },
        None => {
            return None;
        },
    };
    let due_date = match field(es, "due_date") {
        Some(v) => match read_due(v) {
            Some(x) => x,
            None => {
                return None;
            },
        },
        None => {
            return None;
        },
    };
    let tags = match field(es, "tags") {
        Some(v) => match read_opt_texts(v) {
            Some(x) => x,
            None => {
                return None;
            },
        },
        None => {
            return None;
        },
    };
    let parent_id = match field(es, "parent_id") {
        Some(v) => match read_opt_id(v) {
            Some(x) => x,
            None => {
                return None;
            },
        },
        None => {
            return None;
        },
    };
    let subtasks = match field(es, "subtasks") {
        Some(v) => match read_opt_ids(v) {
            Some(x) => x,
            None => {
                return None;
            },
        },
        None => {
            return None;
        },
    };
    let recurrence = match field(es, "recurrence") {
        Some(v) => match read_opt_recurrence(v) {
            Some(x) => x,
            None => {
                return None;
            },
        },
        None => {
            return None;
        },
    };
    Some(
        Todo {
            id,
            title,
            description,
            priority,
            status,
            created_at,
            due_date,
            tags,
            parent_id,
            subtasks,
            recurrence,
        },
    )
}

/// The stored form of a list of texts.
fn encode_texts(v: &Vec<String>) -> (r: Json)
    ensures
        opt_texts_is(r, Some(*v)),
{
    let mut items: Vec<Json> = Vec::new();
    let mut i: usize = 0;
    while i < v.len()
        invariant
            i <= v@.len(),
            items@.len() == i,
            forall|k: int| 0 <= k < i ==> text_is(#[trigger] items@[k], v@[k]@),
        decreases v@.len() - i,
    {
        items.push(Json::Text(v[i].clone()));
        i = i + 1;
    }
    Json::List(items)
}

/// The stored form of a list of identifiers.
fn encode_ids(v: &Vec<u128>) -> (r: Json)
    ensures
        opt_ids_is(r, Some(*v)),
        id_texts_are(r, v@),
{
    let mut items: Vec<Json> = Vec::new();
    let mut i: usize = 0;
    while i < v.len()
        invariant
            i <= v@.len(),
            items@.len() == i,
            forall|k: int| 0 <= k < i ==> id_is(#[trigger] items@[k], v@[k]),
            forall|k: int| 0 <= k < i ==> text_is(#[trigger] items@[k], id_text(v@[k])),
        decreases v@.len() - i,
    {
        items.push(Json::Text(format_id(v[i])));
        i = i + 1;
    }
    Json::List(items)
}

/// The stored form of task `t`.
pub fn encode_todo(t: &Todo) -> (r: Json)
    requires
        stamps_in_range(*t),
    ensures
        stores_todo(r, *t),
        spells_todo(r, *t),
{
    let description = match &t.description {
        Some(d) => Json::Text(d.clone()),
        None => Json::Null,
    };
    let due_date = match t.due_date {
        Some(d) => Json::Text(utc_stamp(d)),
        None => Json::Null,
    };
    let tags = match &t.tags {
        Some(v) => encode_texts(v),
        None => Json::Null,
    };
    let parent_id = match t.parent_id {
        Some(p) => Json::Text(format_id(p)),
        None => Json::Null,
    };
    let subtasks = match &t.subtasks {
        Some(v) => encode_ids(v),
        None => Json::Null,
    };
    let recurrence = match &t.recurrence {
        Some(Recurrence::Daily) => Json::Text("Daily".to_string()),
        Some(Recurrence::Weekly) => Json::Text("Weekly".to_string()),
        Some(Recurrence::Custom(x)) => {
            let mut fs: Vec<(String, Json)> = Vec::new();
            fs.push(("Custom".to_string(), Json::Text(x.clone())));
            Json::Object(fs)
        },
        None => Json::Null,
    };
    let mut es: Vec<(String, Json)> = Vec::new();
    es.push(("id".to_string(), Json::Text(format_id(t.id))));
    es.push(("title".to_string(), Json::Text(t.title.clone())));
    es.push(("description".to_string(), description));
    es.push(("priority".to_string(), Json::Text(t.priority.label().to_string())));
    es.push(("status".to_string(), Json::Text(t.status.name().to_string())));
    es.push(("created_at".to_string(), Json::Text(naive_stamp(t.created_at))));
    es.push(("due_date".to_string(), due_date));
    es.push(("tags".to_string(), tags));
    es.push(("parent_id".to_string(), parent_id));
    es.push(("subtasks".to_string(), subtasks));
    es.push(("recurrence".to_string(), recurrence));
    proof {
        reveal_strlit("id");
        reveal_strlit("title");
        reveal_strlit("description");
        reveal_strlit("priority");
        reveal_strlit("status");
        reveal_strlit("created_at");
        reveal_strlit("due_date");
        reveal_strlit("tags");
        reveal_strlit("parent_id");
        reveal_strlit("subtasks");
        reveal_strlit("recurrence");
        let s = es@;
        let names = seq![
            "id"@,
            "title"@,
            "description"@,
            "priority"@,
            "status"@,
            "created_at"@,
            "due_date"@,
            "tags"@,
            "parent_id"@,
            "subtasks"@,
            "recurrence"@,
        ];
        assert forall|i: int| 0 <= i < 11 implies s[i].0@ == #[trigger] names[i] by {}
        assert forall|i: int, j: int| 0 <= i < j < 11 implies #[trigger] names[i] != #[trigger] names[j] by {
            assert(names[i].len() != names[j].len() || names[i][0] != names[j][0]);
        }
        assert forall|i: int| 0 <= i < 11 implies field_of(s, #[trigger] names[i]) == Some(s[i].1) by {
            field_of_first(s, names[i], i);
        }
    }
    Json::Object(es)
}

broadcast use vstd::std_specs::hash::group_hash_axioms;

/// Entry `e` of a stored store names a task of `m` by its identifier and
/// holds that task's stored form.
pub open spec fn stores_entry(e: (String, Json), m: Map<u128, Todo>) -> bool {
    match parsed_id(e.0@) {
        Some(k) => m.contains_key(k) && stores_todo(e.1, m[k]),
        None => false,
    }
}

/// `doc` is the stored form of the store `m`: an object with one field per
/// task, named by the task's identifier.
pub open spec fn stores_store(doc: Json, m: Map<u128, Todo>) -> bool {
    match doc {
        Json::Object(es) => {
            &&& es@.len() == m.dom().len()
            &&& forall|i: int| 0 <= i < es@.len() ==> stores_entry(#[trigger] es@[i], m)
            &&& forall|i: int, j: int|
                0 <= i < j < es@.len() ==> parsed_id((#[trigger] es@[i]).0@) != parsed_id(
                    (#[trigger] es@[j]).0@,
                )
            &&& forall|k: u128| #[trigger]
                m.contains_key(k) ==> exists|i: int|
                    0 <= i < es@.len() && parsed_id(es@[i].0@) == Some(k)
        },
        _ => false,
    }
}

/// Entry `e` is named by the text of an identifier, and holds a task of
/// `m` written with that identifier's and its times' exact texts.
pub open spec fn spells_entry(e: (String, Json), m: Map<u128, Todo>) -> bool {
    match parsed_id(e.0@) {
        Some(k) => e.0@ == id_text(k) && spells_todo(e.1, m[k]),
        None => false,
    }
}

/// Two stores hold the same identifiers, with tasks that agree field by
/// field.
pub open spec fn same_store(a: Map<u128, Todo>, b: Map<u128, Todo>) -> bool {
    &&& a.dom() == b.dom()
    &&& forall|k: u128| #[trigger] a.contains_key(k) ==> same_fields(a[k], b[k])
}

/// The stored form of a store determines the store: reading back what was
/// saved gives every task, and every field of it, as it was.
pub proof fn stored_form_determines_store(doc: Json, a: Map<u128, Todo>, b: Map<u128, Todo>)
    requires
        stores_store(doc, a),
        stores_store(doc, b),
    ensures
        same_store(a, b),
{
    if let Json::Object(es) = doc {
        assert forall|k: u128| #[trigger] a.contains_key(k) implies b.contains_key(k) && same_fields(
            a[k],
            b[k],
        ) by {
            let i = choose|i: int| 0 <= i < es@.len() && parsed_id(es@[i].0@) == Some(k);
            assert(stores_entry(es@[i], a));
            assert(stores_entry(es@[i], b));
            stored_form_determines_todo(es@[i].1, a[k], b[k]);
        }
        assert forall|k: u128| #[trigger] b.contains_key(k) implies a.contains_key(k) by {
            let i = choose|i: int| 0 <= i < es@.len() && parsed_id(es@[i].0@) == Some(k);
            assert(stores_entry(es@[i], a));
        }
        assert(a.dom() =~= b.dom());
    }
}

/// Every time in the store lies in chrono's range.
pub open spec fn store_stamps_in_range(m: Map<u128, Todo>) -> bool {
    forall|k: u128| #[trigger] m.contains_key(k) ==> stamps_in_range(m[k])
}

/// Whether every time in the store lies in chrono's range.
pub fn store_stamps_writable(todos: &HashMap<u128, Todo>) -> (r: bool)
    requires
        store_wf(todos@),
    ensures
        r == store_stamps_in_range(todos@),
{
    let ghost m = todos@;
    let all = collect_refs(todos);
    let mut n: usize = 0;
    while n < all.len()
        invariant
            m == todos@,
            crate::listing::lists_store(all@, m),
            n <= all@.len(),
            forall|i: int| 0 <= i < n ==> stamps_in_range(*all@[i]),
        decreases all@.len() - n,
    {
        if !todo_stamps_in_range(all[n]) {
            assert(m.contains_key(all@[n as int].id));
            return false;
        }
        n = n + 1;
    }
    assert forall|k: u128| #[trigger] m.contains_key(k) implies stamps_in_range(m[k]) by {
        let i = choose|i: int| 0 <= i < all@.len() && all@[i].id == k;
        assert(m.contains_key(all@[i].id));
    }
    true
}

/// The stored form of the store.
pub fn encode_store(todos: &HashMap<u128, Todo>) -> (r: Json)
    requires
        store_wf(todos@),
        store_stamps_in_range(todos@),
    ensures
        stores_store(r, todos@),
        r matches Json::Object(es) && forall|i: int|
            0 <= i < es@.len() ==> spells_entry(#[trigger] es@[i], todos@),
{
    let ghost m = todos@;
    let all = collect_refs(todos);
    let mut es: Vec<(String, Json)> = Vec::new();
    let mut n: usize = 0;
    while n < all.len()
        invariant
            m == todos@,
            store_stamps_in_range(m),
            crate::listing::lists_store(all@, m),
            n <= all@.len(),
            es@.len() == n,
            forall|i: int|
                0 <= i < n ==> parsed_id((#[trigger] es@[i]).0@) == Some(all@[i].id) && stores_todo(
                    es@[i].1,
                    *all@[i],
                ) && es@[i].0@ == id_text(all@[i].id) && spells_todo(es@[i].1, *all@[i]),
        decreases all@.len() - n,
    {
        let t = all[n];
        assert(all@[n as int] == t);
        assert(m.contains_key(all@[n as int].id));
        assert(stamps_in_range(m[t.id]));
        es.push((format_id(t.id), encode_todo(t)));
        n = n + 1;
    }
    proof {
        assert forall|i: int| 0 <= i < es@.len() implies stores_entry(#[trigger] es@[i], m)
            && spells_entry(es@[i], m) by {
            assert(m.contains_key(all@[i].id) && m[all@[i].id] == *all@[i]);
        }
        assert forall|i: int, j: int| 0 <= i < j < es@.len() implies parsed_id(
            (#[trigger] es@[i]).0@,
        ) != parsed_id((#[trigger] es@[j]).0@) by {
            assert(all@[i].id != all@[j].id);
        }
        assert forall|k: u128| #[trigger] m.contains_key(k) implies exists|i: int|
            0 <= i < es@.len() && parsed_id(es@[i].0@) == Some(k) by {
            let i = choose|i: int| 0 <= i < all@.len() && all@[i].id == k;
            assert(parsed_id(es@[i].0@) == Some(k));
        }
    }
    Json::Object(es)
}

/// The store that `doc` is the stored form of, if it is the stored form of
/// a store whose tasks are filed under their own identifiers.
pub fn decode_store(doc: &Json) -> (r: Option<HashMap<u128, Todo>>)
    ensures
        match r {
            Some(m) => stores_store(*doc, m@) && store_wf(m@),
            None => forall|m: Map<u128, Todo>|
                m.dom().finite() && store_wf(m) ==> !#[trigger] stores_store(*doc, m),
        },
{
    let es = match doc {
        Json::Object(es) => es,
        _ => {
            return None;
        },
    };
    let mut out: HashMap<u128, Todo> = HashMap::new();
    let mut i: usize = 0;
    while i < es.len()
        invariant
            *doc == Json::Object(*es),
            i <= es@.len(),
            out@.dom().finite(),
            out@.dom().len() == i,
            store_wf(out@),
            forall|j: int| 0 <= j < i ==> stores_entry(#[trigger] es@[j], out@),
            forall|j1: int, j2: int|
                0 <= j1 < j2 < i ==> parsed_id((#[trigger] es@[j1]).0@) != parsed_id(
                    (#[trigger] es@[j2]).0@,
                ),
            forall|k: u128| #[trigger]
                out@.contains_key(k) ==> exists|j: int| 0 <= j < i && parsed_id(es@[j].0@) == Some(k),
        decreases es@.len() - i,
    {
        let k = match parse_id(es[i].0.as_str()) {
            Some(k) => k,
            None => {
                assert forall|m: Map<u128, Todo>|
                    m.dom().finite() && store_wf(m) implies !#[trigger] stores_store(*doc, m) by {
                    if stores_store(*doc, m) {
                        assert(stores_entry(es@[i as int], m));
                    }
                }
                return None;
            },
        };
        let t = match decode_todo(&es[i].1) {
            Some(t) => t,
            None => {
                assert forall|m: Map<u128, Todo>|
                    m.dom().finite() && store_wf(m) implies !#[trigger] stores_store(*doc, m) by {
                    if stores_store(*doc, m) {
                        assert(stores_entry(es@[i as int], m));
                    }
                }
                return None;
            },
        };
        if t.id != k {
            assert forall|m: Map<u128, Todo>|
                m.dom().finite() && store_wf(m) implies !#[trigger] stores_store(*doc, m) by {
                if stores_store(*doc, m) {
                    assert(stores_entry(es@[i as int], m));
                    stored_form_determines_todo(es@[i as int].1, t, m[k]);
                }
            }
            return None;
        }
        if out.contains_key(&k) {
            assert forall|m: Map<u128, Todo>|
                m.dom().finite() && store_wf(m) implies !#[trigger] stores_store(*doc, m) by {
                if stores_store(*doc, m) {
                    let j = choose|j: int| 0 <= j < i && parsed_id(es@[j].0@) == Some(k);
                    assert(parsed_id(es@[j].0@) != parsed_id(es@[i as int].0@));
                }
            }
            return None;
        }
        let ghost before = out@;
        out.insert(k, t);
        proof {
            assert(out@ == before.insert(k, t));
            assert forall|j: int| 0 <= j < i + 1 implies stores_entry(#[trigger] es@[j], out@) by {
                if j < i {
                    assert(stores_entry(es@[j], before));
                    let kj = parsed_id(es@[j].0@)->0;
                    assert(kj != k);
                }
            }
            assert forall|kk: u128| #[trigger] out@.contains_key(kk) implies exists|j: int|
                0 <= j < i + 1 && parsed_id(es@[j].0@) == Some(kk) by {
                if kk != k {
                    assert(before.contains_key(kk));
                    let j = choose|j: int| 0 <= j < i && parsed_id(es@[j].0@) == Some(kk);
                } else {
                    assert(parsed_id(es@[i as int].0@) == Some(kk));
                }
            }
            assert forall|j1: int, j2: int|
                0 <= j1 < j2 < i + 1 implies parsed_id((#[trigger] es@[j1]).0@) != parsed_id(
                (#[trigger] es@[j2]).0@,
            ) by {
                if j2 == i {
                    assert(stores_entry(es@[j1], before));
                }
            }
        }
        i = i + 1;
    }
    Some(out)
}

} // verus!
