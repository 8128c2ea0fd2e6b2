//! Points in time, as seconds since the Unix epoch, read through `chrono`.

use vstd::prelude::*;

verus! {

/// What parsing a text as a `chrono::DateTime<chrono::Utc>` and taking its
/// `timestamp` comes to: the seconds since the Unix epoch of the moment that
/// the text writes, or `None` where the text writes no moment.
pub uninterp spec fn timestamp_parse(text: Seq<char>) -> Option<i64>;

/// Parses a text as a `chrono::DateTime<chrono::Utc>` with `str::parse` and
/// calls `timestamp` on the moment. The contract names the outcome; the call
/// fails, with the parser's message, exactly where the text writes no moment.
#[verifier::external_body]
pub(crate) fn parse_timestamp(text: &str) -> (parsed: Result<i64, String>)
    ensures
        parsed is Ok <==> timestamp_parse(text@) is Some,
        parsed matches Ok(seconds) ==> timestamp_parse(text@) == Some(seconds),
{
    match text.parse::<chrono::DateTime<chrono::Utc>>() {
        Ok(moment) => Ok(moment.timestamp()),
        Err(cause) => Err(cause.to_string()),
    }
}

} // verus!
