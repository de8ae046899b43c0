//! Clock, calendar and date-time text, from `chrono`.

use crate::utils::{Date, Instant, Today, Weekday};
use chrono::Datelike;
use vstd::prelude::*;

verus! {

/// What `chrono::DateTime::parse_from_rfc3339` makes of a text: the instant
/// it denotes, as seconds since the Unix epoch and nanoseconds within the
/// second, or the message of the parse error.
pub uninterp spec fn rfc3339_reading(text: Seq<char>) -> Result<(int, int), Seq<char>>;

/// The text `chrono` displays for the date with the given day count
/// (`NaiveDate`'s `Display`, of the form `YYYY-MM-DD` for the years 0 to
/// 9999), or `None` where `chrono` has no date with that count.
pub uninterp spec fn date_text(days_from_ce: int) -> Option<Seq<char>>;

/// Calls `chrono::Utc::now` and takes its `timestamp` and
/// `timestamp_subsec_nanos`: the system clock, counted from the Unix epoch.
/// Nothing is claimed of the value.
#[verifier::external_body]
pub(crate) fn utc_now() -> (r: Instant) {
    let now = chrono::Utc::now();
    Instant { seconds: now.timestamp(), nanos: now.timestamp_subsec_nanos() }
}

/// Calls `chrono::Utc::now` and takes its `date_naive`: the current UTC
/// calendar date as `num_days_from_ce` counts it, with the `weekday` that
/// `chrono` gives for it. Nothing is claimed of the value.
#[verifier::external_body]
pub(crate) fn today_utc() -> (r: Today) {
    let date = chrono::Utc::now().date_naive();
    let weekday = match date.weekday() {
        chrono::Weekday::Mon => Weekday::Mon,
        chrono::Weekday::Tue => Weekday::Tue,
        chrono::Weekday::Wed => Weekday::Wed,
        chrono::Weekday::Thu => Weekday::Thu,
        chrono::Weekday::Fri => Weekday::Fri,
        chrono::Weekday::Sat => Weekday::Sat,
        chrono::Weekday::Sun => Weekday::Sun,
    };
    Today { date: Date { days_from_ce: date.num_days_from_ce() }, weekday }
}

/// Calls `chrono::NaiveDate::from_num_days_from_ce_opt` and displays the
/// date. The contract only names the result: it is [`date_text`] of the day
/// count.
#[verifier::external_body]
pub(crate) fn format_date(date: Date) -> (r: Option<String>)
    ensures
        match r {
            Some(text) => date_text(date.days_from_ce as int) == Some(text@),
            None => date_text(date.days_from_ce as int) is None,
        },
{
    chrono::NaiveDate::from_num_days_from_ce_opt(date.days_from_ce).map(|d| d.to_string())
}

/// Calls `chrono::DateTime::parse_from_rfc3339`. On success the instant is
/// handed out as `timestamp` and `timestamp_subsec_nanos`, on failure the
/// error's message. The contract only names the result: it is
/// [`rfc3339_reading`] of the text.
#[verifier::external_body]
pub(crate) fn parse_rfc3339(text: &str) -> (r: Result<Instant, String>)
    ensures
        match r {
            Ok(at) => rfc3339_reading(text@) == Ok::<(int, int), Seq<char>>(
                (at.seconds as int, at.nanos as int),
            ),
            Err(message) => rfc3339_reading(text@) == Err::<(int, int), Seq<char>>(message@),
        },
{
    match chrono::DateTime::parse_from_rfc3339(text) {
        Ok(at) => Ok(Instant { seconds: at.timestamp(), nanos: at.timestamp_subsec_nanos() }),
        Err(e) => Err(e.to_string()),
    }
}

} // verus!
