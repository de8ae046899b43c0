//! Day names, the resolution of a weekday and a local time to an instant,
//! and other helpers shared by the services.

use crate::config::{config_read, AppConfig, AppConfigView, Environment};
use crate::errors::{or_internal_error, or_parsing_error, AppError, AppErrorView};
use crate::outside::calendar::{
    date_text, format_date, parse_rfc3339, rfc3339_reading, today_utc, utc_now,
};
use crate::outside::chance::random_alphanumeric;
use crate::outside::ids::{parse_uuid, uuid_reading};
use crate::outside::passwords::{bcrypt_hash, bcrypt_verdict, bcrypt_verify};
use crate::outside::strings::push_char;
use crate::text::{
    chars_of, join2, join3, lemma_replaced_without_occurrence, occurs, replace_all, replaced,
    same_text, trim, trim_leading, trim_start, trimmed,
};
use vstd::arithmetic::div_mod::lemma_fundamental_div_mod_converse;
use vstd::prelude::*;

verus! {

/// A day of the week.
#[derive(Clone, Copy, Debug, PartialEq, Eq, Structural)]
pub enum Weekday {
    Mon,
    Tue,
    Wed,
    Thu,
    Fri,
    Sat,
    Sun,
}

impl Weekday {
    /// The number of days from Monday: 0 for Monday, 6 for Sunday.
    pub open spec fn index(self) -> int {
        match self {
            Weekday::Mon => 0,
            Weekday::Tue => 1,
            Weekday::Wed => 2,
            Weekday::Thu => 3,
            Weekday::Fri => 4,
            Weekday::Sat => 5,
            Weekday::Sun => 6,
        }
    }

    /// The number of days from Monday: 0 for Monday, 6 for Sunday.
    pub fn num_days_from_monday(self) -> (r: u32)
        ensures
            r == self.index(),
    {
        match self {
            Weekday::Mon => 0,
            Weekday::Tue => 1,
            Weekday::Wed => 2,
            Weekday::Thu => 3,
            Weekday::Fri => 4,
            Weekday::Sat => 5,
            Weekday::Sun => 6,
        }
    }
}

/// A calendar date, as the number of its day in the proleptic Gregorian
/// calendar, where day 1 is January 1 of the year 1.
#[derive(Clone, Copy, Debug, PartialEq, Eq, Structural)]
pub struct Date {
    pub days_from_ce: i32,
}

/// A calendar date together with its day of the week, as read off a clock.
#[derive(Clone, Copy, Debug, PartialEq, Eq, Structural)]
pub struct Today {
    pub date: Date,
    pub weekday: Weekday,
}

impl Today {
    /// Whether the weekday is the one on which the date falls.
    pub open spec fn is_calendar_day(self) -> bool {
        self.weekday.index() == weekday_of_day(self.date.days_from_ce as int)
    }

    /// Whether the weekday is the one on which the date falls.
    pub fn falls_on_its_weekday(&self) -> (r: bool)
        ensures
            r == self.is_calendar_day(),
    {
        self.weekday.num_days_from_monday() == weekday_number(self.date)
    }
}

/// The number from Monday of the weekday on which a date falls.
pub fn weekday_number(date: Date) -> (r: u32)
    ensures
        r == weekday_of_day(date.days_from_ce as int),
{
    // 2_800_000_000 is a multiple of 7 that lifts every day count above 0
    let lifted: i64 = date.days_from_ce as i64 - 1 + 2_800_000_000;
    let r = (lifted % 7) as u32;
    proof {
        let day = date.days_from_ce as int;
        let weeks = (day - 1) / 7;
        assert(day - 1 == 7 * weeks + (day - 1) % 7);
        assert(lifted == (weeks + 400_000_000) * 7 + (day - 1) % 7);
        lemma_fundamental_div_mod_converse(lifted as int, 7, weeks + 400_000_000, (day - 1) % 7);
    }
    r
}

/// An instant in UTC: whole seconds since the Unix epoch and the nanoseconds
/// within that second.
#[derive(Clone, Copy, Debug, PartialEq, Eq, Structural)]
pub struct Instant {
    pub seconds: i64,
    pub nanos: u32,
}

/// The system clock in whole seconds since the Unix epoch: what
/// [`seconds_since_epoch`] makes of the instant that the clock gave.
pub fn current_timestamp() -> (r: u64)
    ensures
        exists|clock: Instant| r == epoch_seconds(clock),
        r <= i64::MAX,
{
    let now = utc_now();
    seconds_since_epoch(now)
}

/// The whole seconds from the Unix epoch to an instant, where an instant
/// before the epoch counts as the epoch.
pub open spec fn epoch_seconds(at: Instant) -> u64 {
    if at.seconds < 0 {
        0
    } else {
        at.seconds as u64
    }
}

/// The whole seconds from the Unix epoch to an instant. An instant before
/// the epoch counts as the epoch; the nanoseconds are dropped.
pub fn seconds_since_epoch(at: Instant) -> (r: u64)
    ensures
        r == epoch_seconds(at),
        r <= i64::MAX,
{
    if at.seconds < 0 {
        0
    } else {
        at.seconds as u64
    }
}

/// The identifier that a text denotes, and `ParsingError` with the reader's
/// message where it denotes none.
pub open spec fn id_read(text: Seq<char>) -> Result<u128, AppErrorView> {
    match uuid_reading(text) {
        Ok(id) => Ok(id),
        Err(why) => Err(AppErrorView::ParsingError(why)),
    }
}

/// Reads an identifier from its text.
pub fn parse_id(text: &str) -> (r: Result<u128, AppError>)
    ensures
        match r {
            Ok(id) => id_read(text@) == Ok::<u128, AppErrorView>(id),
            Err(e) => id_read(text@) == Err::<u128, AppErrorView>(e@),
        },
{
    or_parsing_error(parse_uuid(text))
}

/// Whether `c` is an ASCII letter or digit.
pub open spec fn is_alphanumeric(c: char) -> bool {
    'a' <= c <= 'z' || 'A' <= c <= 'Z' || '0' <= c <= '9'
}

/// A text of `length` ASCII letters and digits, each drawn at random.
pub fn create_random_string(length: usize) -> (r: String)
    ensures
        r@.len() == length,
        forall|i: int| 0 <= i < length ==> is_alphanumeric(#[trigger] r@[i]),
{
    let mut out = String::new();
    let mut n: usize = 0;
    while n < length
        invariant
            n <= length,
            out@.len() == n,
            forall|i: int| 0 <= i < n ==> is_alphanumeric(#[trigger] out@[i]),
        decreases length - n,
    {
        let code: u8 = random_alphanumeric();
        push_char(&mut out, code as char);
        n = n + 1;
    }
    out
}

/// The Paystack address and secret key of the configuration that the
/// environment gives, or the error of that configuration.
pub fn get_paystack_config(env: &Environment) -> (r: Result<(String, String), AppError>)
    ensures
        match r {
            Ok(pair) => config_read(*env) is Ok && pair.0@ == config_read(*env)->Ok_0.paystack_url
                && pair.1@ == config_read(*env)->Ok_0.paystack_secret_key,
            Err(e) => config_read(*env) == Err::<AppConfigView, AppErrorView>(e@),
        },
{
    match AppConfig::from_env(env) {
        Ok(app_config) => Ok((app_config.paystack_url, app_config.paystack_secret_key)),
        Err(e) => Err(e),
    }
}

/// The secret that tokens are signed with, from the configuration that the
/// environment gives, or the error of that configuration.
pub fn get_secret_key(env: &Environment) -> (r: Result<String, AppError>)
    ensures
        match r {
            Ok(key) => config_read(*env) is Ok && key@ == config_read(*env)->Ok_0.secret_key,
            Err(e) => config_read(*env) == Err::<AppConfigView, AppErrorView>(e@),
        },
{
    match AppConfig::from_env(env) {
        Ok(app_config) => Ok(app_config.secret_key),
        Err(e) => Err(e),
    }
}

/// The seven day names that the service accepts: English, capitalised, in
/// full.
pub open spec fn valid_days() -> Seq<Seq<char>> {
    seq![
        "Monday"@,
        "Tuesday"@,
        "Wednesday"@,
        "Thursday"@,
        "Friday"@,
        "Saturday"@,
        "Sunday"@,
    ]
}

/// Whether `day` is one of the seven accepted day names.
pub open spec fn is_day_name(day: Seq<char>) -> bool {
    valid_days().contains(day)
}

/// The weekday that a day name stands for.
pub open spec fn weekday_named(day: Seq<char>) -> Option<Weekday> {
    if day == "Monday"@ {
        Some(Weekday::Mon)
    } else if day == "Tuesday"@ {
        Some(Weekday::Tue)
    } else if day == "Wednesday"@ {
        Some(Weekday::Wed)
    } else if day == "Thursday"@ {
        Some(Weekday::Thu)
    } else if day == "Friday"@ {
        Some(Weekday::Fri)
    } else if day == "Saturday"@ {
        Some(Weekday::Sat)
    } else if day == "Sunday"@ {
        Some(Weekday::Sun)
    } else {
        None
    }
}

/// The two validators of day names agree: a text is an accepted day name
/// exactly when it stands for a weekday.
pub proof fn lemma_day_validators_agree(day: Seq<char>)
    ensures
        is_day_name(day) <==> weekday_named(day) is Some,
{
    let days = valid_days();
    if weekday_named(day) is Some {
        let i = weekday_named(day)->0.index();
        assert(days[i] == day);
    }
}

/// The weekday that a day name stands for, if it is one.
pub fn parse_weekday(day: &str) -> (r: Option<Weekday>)
    ensures
        r == weekday_named(day@),
{
    if same_text(day, "Monday") {
        Some(Weekday::Mon)
    } else if same_text(day, "Tuesday") {
        Some(Weekday::Tue)
    } else if same_text(day, "Wednesday") {
        Some(Weekday::Wed)
    } else if same_text(day, "Thursday") {
        Some(Weekday::Thu)
    } else if same_text(day, "Friday") {
        Some(Weekday::Fri)
    } else if same_text(day, "Saturday") {
        Some(Weekday::Sat)
    } else if same_text(day, "Sunday") {
        Some(Weekday::Sun)
    } else {
        None
    }
}

/// Whether `day` is one of the seven accepted day names: whether it
/// stands for a weekday.
pub fn is_valid_day(day: &str) -> (r: bool)
    ensures
        r == is_day_name(day@),
{
    proof {
        lemma_day_validators_agree(day@);
    }
    parse_weekday(day).is_some()
}

/// The number of days from a day that falls on `today` to the next day
/// that falls on `target`: 1 to 7, and 7 where the two are the same.
pub open spec fn days_until(today: Weekday, target: Weekday) -> int {
    let ahead = (target.index() - today.index()) % 7;
    if ahead == 0 {
        7
    } else {
        ahead
    }
}

/// The day count of the next date after `today` that falls on `weekday`.
pub open spec fn next_occurrence(today: Today, weekday: Weekday) -> int {
    today.date.days_from_ce + days_until(today.weekday, weekday)
}

/// The number from Monday of the weekday that comes `days` days after a day
/// that falls on `from`.
pub open spec fn weekday_after(from: Weekday, days: int) -> int {
    (from.index() + days) % 7
}

/// The next occurrence of a weekday is the nearest date after today that
/// falls on it: it lies 1 to 7 days ahead, it falls on the weekday asked
/// for, and no date between today and it does.
pub proof fn lemma_next_occurrence_is_nearest_future(today: Today, weekday: Weekday)
    ensures
        today.date.days_from_ce < next_occurrence(today, weekday) <= today.date.days_from_ce + 7,
        weekday_after(today.weekday, days_until(today.weekday, weekday)) == weekday.index(),
        forall|k: int|
            1 <= k < days_until(today.weekday, weekday) ==> #[trigger] weekday_after(
                today.weekday,
                k,
            ) != weekday.index(),
{
}

/// The number from Monday of the weekday on which the date with the given
/// day count falls: day 1, January 1 of the year 1, is a Monday.
pub open spec fn weekday_of_day(days_from_ce: int) -> int {
    (days_from_ce - 1) % 7
}

/// Where today's weekday is the one on which today's date falls, the next
/// occurrence falls on the weekday asked for.
pub proof fn lemma_next_occurrence_falls_on_the_weekday(today: Today, weekday: Weekday)
    requires
        today.weekday.index() == weekday_of_day(today.date.days_from_ce as int),
    ensures
        weekday_of_day(next_occurrence(today, weekday)) == weekday.index(),
{
    let day = today.date.days_from_ce as int;
    let from = today.weekday.index();
    let to = weekday.index();
    let ahead = days_until(today.weekday, weekday);
    let weeks = (day - 1) / 7;
    assert(0 <= from < 7 && 0 <= to < 7);
    assert(ahead == if to > from {
        to - from
    } else {
        to - from + 7
    });
    assert(day - 1 == 7 * weeks + from);
    if to > from {
        assert(day - 1 + ahead == weeks * 7 + to);
        lemma_fundamental_div_mod_converse(day - 1 + ahead, 7, weeks, to);
    } else {
        assert(day - 1 + ahead == (weeks + 1) * 7 + to);
        lemma_fundamental_div_mod_converse(day - 1 + ahead, 7, weeks + 1, to);
    }
}

/// Where today already falls on the weekday asked for, the next occurrence
/// is seven days ahead, never today.
pub proof fn lemma_same_weekday_is_a_week_ahead(today: Today, weekday: Weekday)
    requires
        today.weekday == weekday,
    ensures
        next_occurrence(today, weekday) == today.date.days_from_ce + 7,
{
}

/// The number of days from a day that falls on `today` to the next day
/// that falls on `target`.
pub fn days_until_weekday(today: Weekday, target: Weekday) -> (r: i32)
    ensures
        r == days_until(today, target),
        1 <= r <= 7,
{
    let to: u32 = target.num_days_from_monday();
    let from: u32 = today.num_days_from_monday();
    let ahead: u32 = (to + 7 - from) % 7;
    if ahead == 0 {
        7
    } else {
        ahead as i32
    }
}

/// The nearest date after `today` that falls on `weekday`. Where today
/// falls on that weekday, this is the date a week from today.
pub fn next_occurrence_of_weekday(today: Today, weekday: Weekday) -> (r: Date)
    requires
        next_occurrence(today, weekday) <= i32::MAX,
    ensures
        r.days_from_ce == next_occurrence(today, weekday),
{
    let days = days_until_weekday(today.weekday, weekday);
    Date { days_from_ce: today.date.days_from_ce + days }
}

/// A time text with its surrounding white space removed and the zone
/// abbreviations `WAT`, `CAT`, `EAT` and `GMT` replaced, in this order, by
/// their offsets from UTC.
pub open spec fn normalized(input: Seq<char>) -> Seq<char> {
    replaced(
        replaced(
            replaced(replaced(trimmed(input), "WAT"@, "+01:00"@), "CAT"@, "+02:00"@),
            "EAT"@,
            "+03:00"@,
        ),
        "GMT"@,
        "+00:00"@,
    )
}

/// A time text in which none of the four abbreviations occurs passes
/// through unchanged, but for the white space around it: an abbreviation
/// that is not known is left as it is.
pub proof fn lemma_unknown_abbreviation_passes_through(input: Seq<char>)
    requires
        !occurs(trimmed(input), "WAT"@),
        !occurs(trimmed(input), "CAT"@),
        !occurs(trimmed(input), "EAT"@),
        !occurs(trimmed(input), "GMT"@),
    ensures
        normalized(input) == trimmed(input),
{
    reveal_strlit("WAT");
    reveal_strlit("CAT");
    reveal_strlit("EAT");
    reveal_strlit("GMT");
    let text = trimmed(input);
    lemma_replaced_without_occurrence(text, "WAT"@, "+01:00"@);
    lemma_replaced_without_occurrence(text, "CAT"@, "+02:00"@);
    lemma_replaced_without_occurrence(text, "EAT"@, "+03:00"@);
    lemma_replaced_without_occurrence(text, "GMT"@, "+00:00"@);
}

/// Trims the text and writes the zone abbreviations `WAT`, `CAT`, `EAT` and
/// `GMT` as the offsets `+01:00`, `+02:00`, `+03:00` and `+00:00`. Anything
/// else, an unknown abbreviation too, is left as it is.
pub fn normalize_timezone(input: &str) -> (r: String)
    ensures
        r@ == normalized(input@),
{
    proof {
        reveal_strlit("WAT");
        reveal_strlit("CAT");
        reveal_strlit("EAT");
        reveal_strlit("GMT");
    }
    let wat = replace_all(trim(input), "WAT", "+01:00");
    let cat = replace_all(wat.as_str(), "CAT", "+02:00");
    let eat = replace_all(cat.as_str(), "EAT", "+03:00");
    replace_all(eat.as_str(), "GMT", "+00:00")
}

/// The text of the date with the given day count, where there is such a
/// date.
pub open spec fn date_label(days_from_ce: int) -> Option<Seq<char>> {
    if i32::MIN <= days_from_ce <= i32::MAX {
        date_text(days_from_ce)
    } else {
        None
    }
}

/// Whether `c` is a decimal digit.
pub open spec fn is_digit(c: char) -> bool {
    '0' <= c <= '9'
}

/// Whether `c` may stand in the time of day of a time text: a digit, a
/// colon or a point.
pub open spec fn is_clock_char(c: char) -> bool {
    is_digit(c) || c == ':' || c == '.'
}

/// The length of the time of day with which a time text begins.
pub open spec fn clock_len(time: Seq<char>) -> nat
    decreases time.len(),
{
    if time.len() > 0 && is_clock_char(time.first()) {
        1 + clock_len(time.drop_first())
    } else {
        0
    }
}

/// Whether a time of day gives hours and minutes only, as `HH:MM`.
pub open spec fn is_hours_and_minutes(clock: Seq<char>) -> bool {
    &&& clock.len() == 5
    &&& is_digit(clock[0])
    &&& is_digit(clock[1])
    &&& clock[2] == ':'
    &&& is_digit(clock[3])
    &&& is_digit(clock[4])
}

/// A time text in the form that the reader of date-times asks for: the
/// time of day, with `:00` for the seconds where it gives hours and
/// minutes only, and right after it what follows the time of day, without
/// the white space between the two.
pub open spec fn completed(time: Seq<char>) -> Seq<char> {
    let clock = time.take(clock_len(time) as int);
    let zone = trim_start(time.skip(clock_len(time) as int));
    if is_hours_and_minutes(clock) {
        clock + ":00"@ + zone
    } else {
        clock + zone
    }
}

/// The time of day is a part of the time text.
proof fn lemma_clock_len_fits(time: Seq<char>)
    ensures
        clock_len(time) <= time.len(),
    decreases time.len(),
{
    if time.len() > 0 && is_clock_char(time.first()) {
        lemma_clock_len_fits(time.drop_first());
    }
}

/// A time text that gives its seconds, and has no white space after its
/// time of day, is handed on as it is.
pub proof fn lemma_full_time_is_kept(time: Seq<char>)
    requires
        !is_hours_and_minutes(time.take(clock_len(time) as int)),
        trim_start(time.skip(clock_len(time) as int)) == time.skip(clock_len(time) as int),
    ensures
        completed(time) == time,
{
    lemma_clock_len_fits(time);
    assert(time.take(clock_len(time) as int) + time.skip(clock_len(time) as int) =~= time);
}

/// The date-time text that is read for a booking: the date, a `T`, and
/// the normalized time, completed.
pub open spec fn full_datetime(date: Seq<char>, time: Seq<char>) -> Seq<char> {
    date + "T"@ + completed(normalized(time))
}

/// The error for a today whose weekday is not the one on which its date
/// falls.
pub open spec fn clock_out_of_order() -> AppErrorView {
    AppErrorView::InternalServerError("Today's weekday does not match today's date"@)
}

/// The error for a day name that is not one of the seven.
pub open spec fn invalid_day_name() -> AppErrorView {
    AppErrorView::UnProcessableEntity { field: "day"@, message: "Invalid day provided"@ }
}

/// The error for a date-time text that does not read, with the reader's
/// message.
pub open spec fn unreadable_time(full_datetime: Seq<char>, why: Seq<char>) -> AppErrorView {
    AppErrorView::UnProcessableEntity {
        field: "time"@,
        message: "Could not parse time: "@ + full_datetime + " "@ + why,
    }
}

/// What resolving a day name and a time text gives when the clock reads
/// `today`: the instant as seconds and nanoseconds, or the error.
pub open spec fn resolved(today: Today, day: Seq<char>, time: Seq<char>) -> Result<
    (int, int),
    AppErrorView,
> {
    match weekday_named(day) {
        None => Err(invalid_day_name()),
        Some(weekday) => if !today.is_calendar_day() {
            Err(clock_out_of_order())
        } else {
            match date_label(next_occurrence(today, weekday)) {
                None => Err(AppErrorView::InternalServerError("Date out of range"@)),
                Some(date) => match rfc3339_reading(full_datetime(date, time)) {
                    Ok(at) => Ok(at),
                    Err(why) => Err(unreadable_time(full_datetime(date, time), why)),
                },
            }
        },
    }
}

/// Whatever resolves falls on the weekday asked for: a resolution succeeds
/// only for a today whose weekday is that of its date, and the date
/// resolved then lies 1 to 7 days ahead, on the weekday that the day name
/// stands for.
pub proof fn lemma_resolved_day_is_the_day_asked_for(today: Today, day: Seq<char>, time: Seq<char>)
    requires
        resolved(today, day, time) is Ok,
    ensures
        today.is_calendar_day(),
        weekday_named(day) is Some,
        today.date.days_from_ce < next_occurrence(today, weekday_named(day)->0)
            <= today.date.days_from_ce + 7,
        weekday_of_day(next_occurrence(today, weekday_named(day)->0)) == weekday_named(
            day,
        )->0.index(),
{
    lemma_next_occurrence_falls_on_the_weekday(today, weekday_named(day)->0);
}

/// Whether `r` is the outcome that `model` describes.
pub open spec fn is_resolution(
    r: Result<Instant, AppError>,
    model: Result<(int, int), AppErrorView>,
) -> bool {
    match r {
        Ok(at) => model == Ok::<(int, int), AppErrorView>((at.seconds as int, at.nanos as int)),
        Err(e) => model == Err::<(int, int), AppErrorView>(e@),
    }
}

/// The weekday that a day name stands for, or `UnProcessableEntity` for
/// the field `day`.
pub fn weekday_of(day: &str) -> (r: Result<Weekday, AppError>)
    ensures
        match weekday_named(day@) {
            Some(weekday) => r == Ok::<Weekday, AppError>(weekday),
            None => r is Err && r->Err_0@ == invalid_day_name(),
        },
{
    match parse_weekday(day) {
        Some(weekday) => Ok(weekday),
        None => Err(
            AppError::UnProcessableEntity {
                field: "day".to_owned(),
                message: "Invalid day provided".to_owned(),
            },
        ),
    }
}

/// The text of a date, or `InternalServerError` where the calendar has no
/// such date.
pub fn date_or_out_of_range(text: Option<String>) -> (r: Result<String, AppError>)
    ensures
        match text {
            Some(text) => r == Ok::<String, AppError>(text),
            None => r is Err && r->Err_0@ == AppErrorView::InternalServerError(
                "Date out of range"@,
            ),
        },
{
    match text {
        Some(text) => Ok(text),
        None => Err(AppError::InternalServerError("Date out of range".to_owned())),
    }
}

/// Whether `c` is a decimal digit.
pub fn is_digit_character(c: char) -> (r: bool)
    ensures
        r == is_digit(c),
{
    '0' <= c && c <= '9'
}

/// Whether `c` may stand in the time of day of a time text.
pub fn is_clock_character(c: char) -> (r: bool)
    ensures
        r == is_clock_char(c),
{
    ('0' <= c && c <= '9') || c == ':' || c == '.'
}

/// Puts a time text into the form that the reader of date-times asks for:
/// `10:00 +01:00` becomes `10:00:00+01:00`. Seconds are added where the
/// time of day gives hours and minutes only, and the white space between
/// the time of day and what follows it is dropped. Nothing else changes.
pub fn complete_time(time: &str) -> (r: String)
    ensures
        r@ == completed(time@),
{
    let cs = chars_of(time);
    let n = cs.len();
    let mut end: usize = 0;
    assert(time@.skip(0) =~= time@);
    while end < n && is_clock_character(cs[end])
        invariant
            cs@ == time@,
            n == cs@.len(),
            end <= n,
            clock_len(time@) == end + clock_len(time@.skip(end as int)),
        decreases n - end,
    {
        assert(time@.skip(end as int).drop_first() =~= time@.skip(end as int + 1));
        end = end + 1;
    }
    assert(clock_len(time@) == end);
    let clock = time.substring_char(0, end);
    let zone = trim_leading(time.substring_char(end, n));
    proof {
        assert(time@.subrange(0, end as int) =~= time@.take(end as int));
        assert(time@.subrange(end as int, n as int) =~= time@.skip(end as int));
    }
    let hours_and_minutes = end == 5 && is_digit_character(cs[0]) && is_digit_character(cs[1])
        && cs[2] == ':' && is_digit_character(cs[3]) && is_digit_character(cs[4]);
    if hours_and_minutes {
        join3(clock, ":00", zone)
    } else {
        join2(clock, zone)
    }
}

/// The date-time text for a date and a time of day: the date, a `T`, and
/// the normalized time, completed.
pub fn full_datetime_text(date: &str, time_str: &str) -> (r: String)
    ensures
        r@ == full_datetime(date@, time_str@),
{
    let normalized = normalize_timezone(time_str);
    let completed = complete_time(normalized.as_str());
    join3(date, "T", completed.as_str())
}

/// What reading the date-time text came to: the instant, or
/// `UnProcessableEntity` for the field `time` with the text and the
/// reader's message.
pub fn time_or_unreadable(full_datetime_str: &str, read: Result<Instant, String>) -> (r: Result<
    Instant,
    AppError,
>)
    ensures
        match read {
            Ok(at) => r == Ok::<Instant, AppError>(at),
            Err(why) => r is Err && r->Err_0@ == unreadable_time(full_datetime_str@, why@),
        },
{
    match read {
        Ok(at) => Ok(at),
        Err(why) => {
            let head = join3("Could not parse time: ", full_datetime_str, " ");
            Err(
                AppError::UnProcessableEntity {
                    field: "time".to_owned(),
                    message: join2(head.as_str(), why.as_str()),
                },
            )
        },
    }
}

/// Resolves a day name and a local time to the UTC instant of that time on
/// the next such day after `today`.
///
/// Fails with `UnProcessableEntity` for the field `day` where the day name
/// is not one of the seven, and for the field `time` where the date and the
/// completed time do not read as an RFC 3339 date-time. A `today` whose
/// weekday is not the one on which its date falls is refused as
/// `InternalServerError`.
pub fn combine_day_and_time_on(today: Today, day: &str, time_str: &str) -> (r: Result<
    Instant,
    AppError,
>)
    ensures
        is_resolution(r, resolved(today, day@, time_str@)),
{
    let weekday = match weekday_of(day) {
        Ok(weekday) => weekday,
        Err(e) => {
            return Err(e);
        },
    };
    if !today.falls_on_its_weekday() {
        return Err(
            AppError::InternalServerError("Today's weekday does not match today's date".to_owned()),
        );
    }
    let date_text = if today.date.days_from_ce > i32::MAX - days_until_weekday(
        today.weekday,
        weekday,
    ) {
        None
    } else {
        format_date(next_occurrence_of_weekday(today, weekday))
    };
    let date_str = match date_or_out_of_range(date_text) {
        Ok(text) => text,
        Err(e) => {
            return Err(e);
        },
    };
    let full_datetime_str = full_datetime_text(date_str.as_str(), time_str);
    time_or_unreadable(full_datetime_str.as_str(), parse_rfc3339(full_datetime_str.as_str()))
}

/// Resolves a day name and a local time to the UTC instant of that time on
/// the next such day after today, where today is the current UTC date.
///
/// A day name that is not one of the seven is refused whatever the clock
/// reads. Otherwise the outcome is that of [`combine_day_and_time_on`] for
/// the date that the clock gave; an instant is resolved only from a date
/// and a weekday that belong together.
pub fn combine_day_and_time(day: &str, time_str: &str) -> (r: Result<Instant, AppError>)
    ensures
        exists|today: Today|
            is_resolution(r, #[trigger] resolved(today, day@, time_str@)) && (r is Ok
                ==> today.is_calendar_day()),
        weekday_named(day@) is None ==> r is Err && r->Err_0@ == invalid_day_name(),
{
    let today = today_utc();
    let r = combine_day_and_time_on(today, day, time_str);
    assert(is_resolution(r, resolved(today, day@, time_str@)) && (r is Ok
        ==> today.is_calendar_day()));
    r
}

/// Hashes a password for the credential store. The hash is salted at
/// random, so two hashes of one password differ; each verifies against
/// the password. A failure of the hasher is an `InternalServerError`.
pub fn hash_password(password: &str) -> (r: Result<String, AppError>)
    ensures
        match r {
            Ok(hashed) => bcrypt_verdict(password@, hashed@) == Ok::<bool, Seq<char>>(true),
            Err(e) => e@ is InternalServerError,
        },
{
    or_internal_error(bcrypt_hash(password))
}

/// Whether a password matches a stored hash. A hash that cannot be read is
/// an `InternalServerError` with the hasher's message.
pub fn verify_password(password: &str, hashed: &str) -> (r: Result<bool, AppError>)
    ensures
        match bcrypt_verdict(password@, hashed@) {
            Ok(matches) => r == Ok::<bool, AppError>(matches),
            Err(why) => r is Err && r->Err_0@ == AppErrorView::InternalServerError(why),
        },
{
    or_internal_error(bcrypt_verify(password, hashed))
}

} // verus!
