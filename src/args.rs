//! Reading task fields from command arguments and from typed-in lines.
use vstd::prelude::*;
use crate::clock::{parse_day, parse_minute, parsed_day, parsed_minute};
use crate::ids::{parse_id, parsed_id};
use crate::text::{pieces, split_text, texts, trim, trimmed_of};

verus! {

/// Why a piece of user input was refused.
#[derive(Debug, Clone, Copy, PartialEq, Eq, Structural)]
pub enum InputError {
    /// The text does not spell an identifier.
    InvalidId,
    /// The text is not a date in the form `YYYY-MM-DD`.
    InvalidDate,
}

/// The identifiers that the texts of `ps` spell, in order, skipping those
/// that spell none.
pub open spec fn kept_ids(ps: Seq<Seq<char>>) -> Seq<u128>
    decreases ps.len(),
{
    if ps.len() == 0 {
        Seq::<u128>::empty()
    } else {
        let rest = kept_ids(ps.drop_last());
        match parsed_id(ps.last()) {
            Some(i) => rest.push(i),
            None => rest,
        }
    }
}

/// Each text of `ps`, trimmed.
pub open spec fn trimmed_all(ps: Seq<Seq<char>>) -> Seq<Seq<char>> {
    ps.map_values(|p: Seq<char>| trimmed_of(p))
}

/// The due date an optional `YYYY-MM-DD` argument gives, at midnight UTC.
pub fn due_from_arg(arg: Option<String>) -> (r: Result<Option<i64>, InputError>)
    ensures
        match arg {
            None => r == Ok::<Option<i64>, InputError>(None),
            Some(s) => match parsed_day(s@) {
                Some(t) => r == Ok::<Option<i64>, InputError>(Some(t)),
                None => r == Err::<Option<i64>, InputError>(InputError::InvalidDate),
            },
        },
{
    match arg {
        None => Ok(None),
        Some(s) => match parse_day(s.as_str()) {
            Some(t) => Ok(Some(t)),
            None => Err(InputError::InvalidDate),
        },
    }
}

/// The identifier an optional argument gives.
pub fn id_from_arg(arg: Option<String>) -> (r: Result<Option<u128>, InputError>)
    ensures
        match arg {
            None => r == Ok::<Option<u128>, InputError>(None),
            Some(s) => match parsed_id(s@) {
                Some(i) => r == Ok::<Option<u128>, InputError>(Some(i)),
                None => r == Err::<Option<u128>, InputError>(InputError::InvalidId),
            },
        },
{
    match arg {
        None => Ok(None),
        Some(s) => match parse_id(s.as_str()) {
            Some(i) => Ok(Some(i)),
            None => Err(InputError::InvalidId),
        },
    }
}

/// The identifiers that the texts of `v` spell, skipping those that spell
/// none.
pub fn keep_valid_ids(v: &Vec<String>) -> (r: Vec<u128>)
    ensures
        r@ == kept_ids(texts(v@)),
{
    let mut out: Vec<u128> = Vec::new();
    let mut i: usize = 0;
    while i < v.len()
        invariant
            i <= v@.len(),
            out@ == kept_ids(texts(v@).take(i as int)),
        decreases v@.len() - i,
    {
        assert(texts(v@).take(i + 1).drop_last() =~= texts(v@).take(i as int));
        assert(texts(v@).take(i + 1).last() == v@[i as int]@);
        if let Some(id) = parse_id(v[i].as_str()) {
            out.push(id);
        }
        i = i + 1;
    }
    assert(texts(v@).take(i as int) =~= texts(v@));
    out
}

/// The identifiers an optional list of arguments gives; one that spells no
/// identifier fails the whole list.
pub fn ids_from_args(args: Option<Vec<String>>) -> (r: Result<Option<Vec<u128>>, InputError>)
    ensures
        match args {
            None => r matches Ok(None),
            Some(v) => if forall|i: int| 0 <= i < v@.len() ==> parsed_id(#[trigger] v@[i]@) is Some {
                r matches Ok(Some(w)) && w@.len() == v@.len() && forall|i: int|
                    0 <= i < v@.len() ==> parsed_id(#[trigger] v@[i]@) == Some(w@[i])
            } else {
                r == Err::<Option<Vec<u128>>, InputError>(InputError::InvalidId)
            },
        },
{
    match args {
        None => Ok(None),
        Some(v) => {
            let mut out: Vec<u128> = Vec::new();
            let mut i: usize = 0;
            while i < v.len()
                invariant
                    args == Some(v),
                    i <= v@.len(),
                    out@.len() == i,
                    forall|k: int| 0 <= k < i ==> parsed_id(#[trigger] v@[k]@) == Some(out@[k]),
                decreases v@.len() - i,
            {
                match parse_id(v[i].as_str()) {
                    Some(id) => out.push(id),
                    None => {
                        assert(parsed_id(v@[i as int]@) is None);
                        return Err(InputError::InvalidId);
                    },
                }
                i = i + 1;
            }
            Ok(Some(out))
        },
    }
}

/// The trimmed pieces of `s` between commas.
fn trimmed_pieces(s: &str) -> (r: Vec<String>)
    ensures
        texts(r@) == trimmed_all(pieces(s@, ',')),
{
    let parts = split_text(s, ',');
    let mut out: Vec<String> = Vec::new();
    let mut i: usize = 0;
    while i < parts.len()
        invariant
            i <= parts@.len(),
            texts(parts@) == pieces(s@, ','),
            out@.len() == i,
            forall|k: int| 0 <= k < i ==> (#[trigger] out@[k])@ == trimmed_of(parts@[k]@),
        decreases parts@.len() - i,
    {
        let t = trim(parts[i].as_str()).to_string();
        out.push(t);
        i = i + 1;
    }
    assert(texts(out@) =~= trimmed_all(pieces(s@, ',')));
    out
}

/// A due date typed as `YYYY-MM-DD HH:MM` (UTC); an empty line gives
/// none, and so does a line that is not such a date.
pub fn due_from_input(line: &str) -> (r: Option<i64>)
    ensures
        trimmed_of(line@).len() == 0 ==> r is None,
        trimmed_of(line@).len() != 0 ==> r == parsed_minute(trimmed_of(line@)),
{
    let t = trim(line);
    if t.unicode_len() == 0 {
        None
    } else {
        parse_minute(t)
    }
}

/// Tags typed as a comma-separated line, each trimmed; an empty line gives
/// none.
pub fn tags_from_input(line: &str) -> (r: Option<Vec<String>>)
    ensures
        trimmed_of(line@).len() == 0 ==> r is None,
        trimmed_of(line@).len() != 0 ==> (r matches Some(v) && texts(v@) == trimmed_all(
            pieces(trimmed_of(line@), ','),
        )),
{
    let t = trim(line);
    if t.unicode_len() == 0 {
        None
    } else {
        Some(trimmed_pieces(t))
    }
}

/// Identifiers typed as a comma-separated line, each trimmed, skipping
/// those that spell no identifier; gives none if no identifier is left.
pub fn ids_from_input(line: &str) -> (r: Option<Vec<u128>>)
    ensures
        ({
            let ids = kept_ids(trimmed_all(pieces(trimmed_of(line@), ',')));
            &&& trimmed_of(line@).len() == 0 ==> r is None
            &&& trimmed_of(line@).len() != 0 ==> (if ids.len() == 0 {
                r is None
            } else {
                (r matches Some(v) && v@ == ids)
            })
        }),
{
    let t = trim(line);
    if t.unicode_len() == 0 {
        return None;
    }
    let parts = trimmed_pieces(t);
    let ids = keep_valid_ids(&parts);
    if ids.len() == 0 {
        None
    } else {
        Some(ids)
    }
}

} // verus!
