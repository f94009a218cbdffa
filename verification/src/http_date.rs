use vstd::prelude::*;

verus! {

/// Smallest timestamp (seconds since the Unix epoch) that the HTTP date
/// formatter is asked to handle: the epoch itself.
pub const MIN_HTTP_DATE_TS: i64 = 0;

/// One past the largest timestamp the HTTP date formatter is asked to
/// handle: the last second of year 9999, the last year the four-digit year
/// field of the format can carry.
pub const MAX_HTTP_DATE_TS: i64 = 253402300800;

/// The timestamps that can be rendered in the HTTP date shape
/// `"<weekday>, <day> <month> <year> <HH:MM:SS> GMT"`.
pub open spec fn formattable_ts(ts: i64) -> bool {
    MIN_HTTP_DATE_TS <= ts < MAX_HTTP_DATE_TS
}

/// The HTTP date text for a timestamp, e.g. `"Thu, 01 Jan 1970 00:00:00 GMT"`
/// for zero. The text is a pure function of the timestamp; its exact shape is
/// left to the formatter.
pub uninterp spec fn http_date_of(ts: i64) -> Seq<char>;

/// The timestamp an HTTP date text denotes, or `None` where the text does not
/// match the shape `"<weekday>, <day> <month> <year> <HH:MM:SS> GMT"`. A pure
/// function of the text.
pub uninterp spec fn http_date_ts(s: Seq<char>) -> Option<i64>;

/// Relies on chrono's `DateTime::<Utc>::from_timestamp` and
/// `DateTime::format` with the format `"%a, %d %b %Y %H:%M:%S GMT"`: the
/// rendered text depends on the timestamp alone, and every timestamp from the
/// epoch up to year 9999 renders.
#[verifier::external_body]
pub(crate) fn format_http_date(ts: i64) -> (r: Option<String>)
    ensures
        r matches Some(s) ==> s@ == http_date_of(ts),
        formattable_ts(ts) ==> r is Some,
{
    let dt = chrono::DateTime::<chrono::Utc>::from_timestamp(ts, 0)?;
    Some(dt.format("%a, %d %b %Y %H:%M:%S GMT").to_string())
}

/// Relies on chrono's `NaiveDateTime::parse_from_str` with the format
/// `"%a, %d %b %Y %H:%M:%S GMT"`: whether the text parses, and to which
/// timestamp, depends on the text alone.
#[verifier::external_body]
pub(crate) fn parse_http_date(s: &str) -> (r: Option<i64>)
    ensures
        r == http_date_ts(s@),
{
    match chrono::NaiveDateTime::parse_from_str(s, "%a, %d %b %Y %H:%M:%S GMT") {
        Ok(dt) => Some(dt.and_utc().timestamp()),
        Err(_) => None,
    }
}

} // verus!
