//! Task identifiers: 128-bit values, written as hyphenated UUIDs.
use vstd::prelude::*;

verus! {

/// The identifier that `uuid::Uuid::parse_str` reads from a text, if any.
pub uninterp spec fn parsed_id(s: Seq<char>) -> Option<u128>;

/// The text that `uuid::Uuid`'s `Display` writes for an identifier.
pub uninterp spec fn id_text(id: u128) -> Seq<char>;

/// Relies on `uuid::Uuid::new_v4`: a random identifier. Nothing is known
/// of its value.
#[verifier::external_body]
pub(crate) fn fresh_id() -> (r: u128) {
    uuid::Uuid::new_v4().as_u128()
}

/// Relies on `uuid::Uuid::parse_str`: the identifier a text spells, if it
/// spells one; the outcome depends on the text alone.
#[verifier::external_body]
pub(crate) fn parse_id(s: &str) -> (r: Option<u128>)
    ensures
        r == parsed_id(s@),
{
    match uuid::Uuid::parse_str(s) {
        Ok(u) => Some(u.as_u128()),
        Err(_) => None,
    }
}

/// Relies on `uuid::Uuid::from_u128` and its `Display`: the hyphenated
/// lower-case form, 36 characters long, which `uuid::Uuid::parse_str`
/// reads back as the same identifier.
#[verifier::external_body]
pub(crate) fn format_id(id: u128) -> (r: String)
    ensures
        r@ == id_text(id),
        r@.len() == 36,
        parsed_id(r@) == Some(id),
{
    uuid::Uuid::from_u128(id).to_string()
}

} // verus!
