//! Reading an event time: the two accepted notations and the wall clock.

use vstd::prelude::*;

verus! {

/// What `chrono` makes of a text as an RFC 3339 date and time: the instant in
/// microseconds since the epoch, UTC, or `None` where the text is no such
/// date and time.
pub uninterp spec fn rfc3339_micros(text: Seq<char>) -> Option<i64>;

/// `chrono::DateTime::parse_from_rfc3339`, then `timestamp_micros` of the
/// instant. Trusted to return what `rfc3339_micros` names.
#[verifier::external_body]
pub(crate) fn parse_rfc3339_micros(text: &str) -> (micros: Option<i64>)
    ensures
        micros == rfc3339_micros(text@),
{
    match chrono::DateTime::parse_from_rfc3339(text) {
        Ok(instant) => Some(instant.timestamp_micros()),
        Err(_) => None,
    }
}

/// What `chrono` makes of a text in the form `YYYY-MM-DD HH:MM:SS` (its
/// pattern `%Y-%m-%d %H:%M:%S`): the date and time that the text names, as the
/// microseconds that lie between the epoch and that date and time on a clock
/// without a time zone, or `None` where the text is not of that form.
pub uninterp spec fn naive_micros(text: Seq<char>) -> Option<i64>;

/// `chrono::NaiveDateTime::parse_from_str` with the pattern
/// `%Y-%m-%d %H:%M:%S`, then `and_utc` and `timestamp_micros` to hand the date
/// and time out as one integer. Trusted to return what `naive_micros` names.
#[verifier::external_body]
pub(crate) fn parse_naive_micros(text: &str) -> (micros: Option<i64>)
    ensures
        micros == naive_micros(text@),
{
    match chrono::NaiveDateTime::parse_from_str(text, "%Y-%m-%d %H:%M:%S") {
        Ok(naive) => Some(naive.and_utc().timestamp_micros()),
        Err(_) => None,
    }
}

/// `chrono::Local`'s `from_local_datetime` on the date and time that
/// `naive` stands for (rebuilt with `DateTime::from_timestamp_micros` and
/// `naive_utc`), taken only where the local time names a single instant, as
/// microseconds since the epoch, UTC. The result depends on the machine's time
/// zone, so nothing is claimed of it.
#[verifier::external_body]
pub(crate) fn local_to_utc_micros(naive: i64) -> (micros: Option<i64>) {
    let wall = chrono::DateTime::from_timestamp_micros(naive)?.naive_utc();
    let instant = chrono::TimeZone::from_local_datetime(&chrono::Local, &wall).single()?;
    Some(instant.timestamp_micros())
}

/// `chrono::Utc::now`, as microseconds since the epoch. Nothing is claimed of
/// the wall clock.
#[verifier::external_body]
pub(crate) fn now_micros() -> (micros: i64) {
    chrono::Utc::now().timestamp_micros()
}

/// The event time of a message: the local-time reading where there is one,
/// else the RFC 3339 reading where there is one, else the wall clock.
pub open spec fn resolved_timestamp(local: Option<i64>, standard: Option<i64>, now: i64) -> i64 {
    match local {
        Some(micros) => micros,
        None => match standard {
            Some(micros) => micros,
            None => now,
        },
    }
}

/// Picks the event time among the readings of a message's `time` entry and
/// the wall clock.
pub fn resolve_timestamp(local: Option<i64>, standard: Option<i64>, now: i64) -> (micros: i64)
    ensures
        micros == resolved_timestamp(local, standard, now),
{
    match local {
        Some(micros) => micros,
        None => match standard {
            Some(micros) => micros,
            None => now,
        },
    }
}

} // verus!
