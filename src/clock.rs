//! Points in time, held as milliseconds since the Unix epoch (UTC).
use vstd::prelude::*;

verus! {

/// The instant that `chrono` reads from a text in the format
/// `%Y-%m-%d %H:%M` (UTC), if the text is such a date and time.
pub uninterp spec fn parsed_minute(s: Seq<char>) -> Option<i64>;

/// The instant of midnight (UTC) that `chrono` reads from a text in the
/// format `%Y-%m-%d`, if the text is such a date.
pub uninterp spec fn parsed_day(s: Seq<char>) -> Option<i64>;

/// Relies on `chrono::Utc::now`: the current time. Nothing is known of it:
/// the system clock may be set back.
#[verifier::external_body]
pub(crate) fn now_millis() -> (r: i64) {
    chrono::Utc::now().timestamp_millis()
}

/// Relies on `chrono::NaiveDateTime::parse_from_str` with the format
/// `%Y-%m-%d %H:%M`, read as UTC; the outcome depends on the text alone.
#[verifier::external_body]
pub(crate) fn parse_minute(s: &str) -> (r: Option<i64>)
    ensures
        r == parsed_minute(s@),
{
    match chrono::NaiveDateTime::parse_from_str(s, "%Y-%m-%d %H:%M") {
        Ok(t) => Some(t.and_utc().timestamp_millis()),
        Err(_) => None,
    }
}

/// Relies on `chrono::NaiveDate::parse_from_str` with the format
/// `%Y-%m-%d`, taken at midnight UTC; the outcome depends on the text alone.
#[verifier::external_body]
pub(crate) fn parse_day(s: &str) -> (r: Option<i64>)
    ensures
        r == parsed_day(s@),
{
    match chrono::NaiveDate::parse_from_str(s, "%Y-%m-%d") {
        Ok(d) => match d.and_hms_opt(0, 0, 0) {
            Some(t) => Some(t.and_utc().timestamp_millis()),
            None => None,
        },
        Err(_) => None,
    }
}

/// The instant lies within chrono's range: from the start of year -262143
/// to the end of year 262142 (UTC).
pub open spec fn in_chrono_range(ms: i64) -> bool {
    -8334601228800000 <= ms <= 8210266876799999
}

/// The text that `chrono::NaiveDateTime`'s `Debug` writes for an instant
/// (taken in UTC).
pub uninterp spec fn naive_stamp_text(ms: i64) -> Seq<char>;

/// The instant that `chrono::NaiveDateTime`'s `FromStr` reads from a text
/// (taken in UTC), if any.
pub uninterp spec fn parsed_naive_stamp(s: Seq<char>) -> Option<i64>;

/// The text that `chrono::DateTime::<Utc>::to_rfc3339_opts` writes for an
/// instant, with automatic sub-second digits and a `Z` suffix.
pub uninterp spec fn utc_stamp_text(ms: i64) -> Seq<char>;

/// The instant that `chrono::DateTime::<Utc>`'s `FromStr` reads from a
/// text, if any.
pub uninterp spec fn parsed_utc_stamp(s: Seq<char>) -> Option<i64>;

/// Relies on `chrono::DateTime::from_timestamp_millis` and
/// `NaiveDateTime`'s `Debug` (`%Y-%m-%dT%H:%M:%S%.f`), which its `FromStr`
/// reads back.
#[verifier::external_body]
pub(crate) fn naive_stamp(ms: i64) -> (r: String)
    requires
        in_chrono_range(ms),
    ensures
        r@ == naive_stamp_text(ms),
        parsed_naive_stamp(r@) == Some(ms),
{
    match chrono::DateTime::from_timestamp_millis(ms) {
        Some(d) => format!("{:?}", d.naive_utc()),
        None => String::new(),
    }
}

/// Relies on `chrono::NaiveDateTime`'s `FromStr`, taken in UTC; the outcome
/// depends on the text alone.
#[verifier::external_body]
pub(crate) fn parse_naive_stamp(s: &str) -> (r: Option<i64>)
    ensures
        r == parsed_naive_stamp(s@),
{
    match s.parse::<chrono::NaiveDateTime>() {
        Ok(t) => Some(t.and_utc().timestamp_millis()),
        Err(_) => None,
    }
}

/// Relies on `chrono::DateTime::from_timestamp_millis` and
/// `to_rfc3339_opts(SecondsFormat::AutoSi, true)`, which `DateTime::<Utc>`'s
/// `FromStr` reads back.
#[verifier::external_body]
pub(crate) fn utc_stamp(ms: i64) -> (r: String)
    requires
        in_chrono_range(ms),
    ensures
        r@ == utc_stamp_text(ms),
        parsed_utc_stamp(r@) == Some(ms),
{
    match chrono::DateTime::from_timestamp_millis(ms) {
        Some(d) => d.to_rfc3339_opts(chrono::SecondsFormat::AutoSi, true),
        None => String::new(),
    }
}

/// Relies on `chrono::DateTime::<Utc>`'s `FromStr`; the outcome depends on
/// the text alone.
#[verifier::external_body]
pub(crate) fn parse_utc_stamp(s: &str) -> (r: Option<i64>)
    ensures
        r == parsed_utc_stamp(s@),
{
    match s.parse::<chrono::DateTime<chrono::Utc>>() {
        Ok(t) => Some(t.timestamp_millis()),
        Err(_) => None,
    }
}

} // verus!
