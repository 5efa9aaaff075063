//! Reading stored timestamps: RFC 3339 first, then the SQLite datetime
//! format, then a few other common formats, all read as UTC.
use vstd::prelude::*;
use crate::text::{chars_of, append_chars, string_from_chars};

verus! {

/// A point in time in UTC: whole seconds since the Unix epoch and the
/// nanoseconds past them.
#[derive(Debug, Clone, Copy, PartialEq, Eq)]
pub struct Timestamp {
    pub secs: i64,
    pub nanos: u32,
}

/// The seconds and nanoseconds of an optional timestamp.
pub open spec fn stamp_view(t: Option<Timestamp>) -> Option<(i64, u32)> {
    match t {
        Some(x) => Some((x.secs, x.nanos)),
        None => None,
    }
}

/// What `str::parse::<chrono::DateTime<chrono::Utc>>` reads from `s`, as
/// seconds and nanoseconds; `None` on an error.
pub uninterp spec fn utc_from_str(s: Seq<char>) -> Option<(i64, u32)>;

/// What `chrono::NaiveDateTime::parse_from_str(s, fmt)` reads, taken as
/// UTC, as seconds and nanoseconds; `None` on an error.
pub uninterp spec fn naive_utc_from_format(s: Seq<char>, fmt: Seq<char>) -> Option<(i64, u32)>;

/// Calls `str::parse::<chrono::DateTime<chrono::Utc>>` and gives the result
/// as seconds and nanoseconds. The result is named.
#[verifier::external_body]
fn parse_rfc3339_utc(s: &str) -> (res: Option<Timestamp>)
    ensures
        stamp_view(res) == utc_from_str(s@),
{
    s.parse::<chrono::DateTime<chrono::Utc>>().ok().map(
        |d| Timestamp { secs: d.timestamp(), nanos: d.timestamp_subsec_nanos() },
    )
}

/// Calls `chrono::NaiveDateTime::parse_from_str(s, fmt)` and takes the
/// result as UTC, as seconds and nanoseconds. The result is named.
#[verifier::external_body]
fn parse_naive_utc(s: &str, fmt: &str) -> (res: Option<Timestamp>)
    ensures
        stamp_view(res) == naive_utc_from_format(s@, fmt@),
{
    chrono::NaiveDateTime::parse_from_str(s, fmt).ok().map(
        |n| Timestamp { secs: n.and_utc().timestamp(), nanos: n.and_utc().timestamp_subsec_nanos() },
    )
}

/// The formats tried after RFC 3339, in order.
pub open spec fn timestamp_formats() -> Seq<Seq<char>> {
    seq![
        "%Y-%m-%d %H:%M:%S"@,
        "%Y-%m-%dT%H:%M:%S%.fZ"@,
        "%Y-%m-%dT%H:%M:%SZ"@,
        "%Y-%m-%d %H:%M:%S%.f"@,
        "%Y-%m-%dT%H:%M:%S"@,
    ]
}

/// The first of the formats from index `i` on that reads `s`.
pub open spec fn first_format_reading(s: Seq<char>, i: int) -> Option<(i64, u32)>
    decreases 5 - i,
{
    if i >= 5 || i < 0 {
        None
    } else {
        match naive_utc_from_format(s, timestamp_formats()[i]) {
            Some(t) => Some(t),
            None => first_format_reading(s, i + 1),
        }
    }
}

/// The timestamp `s` stands for: read as RFC 3339 where it is, else with
/// the first of the other formats that reads it.
pub open spec fn timestamp_of(s: Seq<char>) -> Option<(i64, u32)> {
    match utc_from_str(s) {
        Some(t) => Some(t),
        None => first_format_reading(s, 0),
    }
}

/// The message of a timestamp that no format reads.
pub open spec fn unreadable_timestamp_message(s: Seq<char>) -> Seq<char> {
    "Unable to parse timestamp '"@ + s + "' with any known format"@
}

/// Reads a stored timestamp: as RFC 3339, else in the SQLite datetime
/// format `YYYY-MM-DD HH:MM:SS`, else in a few other ISO 8601 forms, all
/// taken as UTC. The error names the text.
pub fn parse_timestamp(timestamp_str: &str) -> (res: Result<Timestamp, String>)
    ensures
        match res {
            Ok(t) => timestamp_of(timestamp_str@) == Some((t.secs, t.nanos)),
            Err(m) => timestamp_of(timestamp_str@) is None && m@ == unreadable_timestamp_message(timestamp_str@),
        },
{
    match parse_rfc3339_utc(timestamp_str) {
        Some(t) => {
            return Ok(t);
        },
        None => {},
    }
    let formats: [&str; 5] = [
        "%Y-%m-%d %H:%M:%S",
        "%Y-%m-%dT%H:%M:%S%.fZ",
        "%Y-%m-%dT%H:%M:%SZ",
        "%Y-%m-%d %H:%M:%S%.f",
        "%Y-%m-%dT%H:%M:%S",
    ];
    let ghost fv = crate::document::str_views(formats@);
    assert(fv == timestamp_formats());
    let mut i: usize = 0;
    while i < 5
        invariant
            i <= 5,
            fv == crate::document::str_views(formats@),
            fv == timestamp_formats(),
            utc_from_str(timestamp_str@) is None,
            first_format_reading(timestamp_str@, 0) == first_format_reading(timestamp_str@, i as int),
        decreases 5 - i,
    {
        assert(fv[i as int] == formats[i as int]@);
        match parse_naive_utc(timestamp_str, formats[i]) {
            Some(t) => {
                return Ok(t);
            },
            None => {},
        }
        i += 1;
    }
    let mut m = chars_of("Unable to parse timestamp '");
    append_chars(&mut m, &chars_of(timestamp_str));
    append_chars(&mut m, &chars_of("' with any known format"));
    Err(string_from_chars(&m))
}

} // verus!
