//! Calendar arithmetic, parsing and formatting of due dates, done by the
//! `time` crate.

use vstd::prelude::*;
use time::format_description::well_known::Iso8601;
use time::{Duration, OffsetDateTime, UtcOffset};
use crate::types::DueDate;

verus! {

/// The seconds of a day.
pub const SECONDS_PER_DAY: i64 = 86_400;

/// The seconds of a week.
pub const SECONDS_PER_WEEK: i64 = 604_800;

/// The date `seconds` later than `date`, or earlier where `seconds` is
/// negative; none where the calendar of the `time` crate does not reach that
/// far. How far it reaches depends on how that crate is built.
pub uninterp spec fn shifted(date: DueDate, seconds: int) -> Option<DueDate>;

/// The date that `text` gives in ISO 8601; none where it gives no date.
pub uninterp spec fn iso8601_parsed(text: Seq<char>) -> Option<DueDate>;

/// The calendar day of `date` in ISO 8601; none for a date outside the
/// calendar.
pub uninterp spec fn iso8601_day(date: DueDate) -> Option<Seq<char>>;

/// The characters of an optional text.
pub open spec fn text_view(text: Option<String>) -> Option<Seq<char>> {
    match text {
        Some(t) => Some(t@),
        None => None,
    }
}

/// `OffsetDateTime::now_utc`: the current time, in UTC.
#[verifier::external_body]
pub(crate) fn now_utc() -> (now: DueDate)
    ensures
        now.offset_secs == 0,
{
    let now = OffsetDateTime::now_utc();
    DueDate { unix_nanos: now.unix_timestamp_nanos(), offset_secs: now.offset().whole_seconds() }
}

/// `OffsetDateTime::checked_add`: the date `seconds` later, in the same
/// offset; none where `date` or the result lies outside the calendar.
#[verifier::external_body]
pub(crate) fn date_checked_add(date: DueDate, seconds: i64) -> (moved: Option<DueDate>)
    ensures
        moved == shifted(date, seconds as int),
        moved matches Some(d) ==> d.unix_nanos == date.unix_nanos + seconds * 1_000_000_000
            && d.offset_secs == date.offset_secs,
{
    let offset = UtcOffset::from_whole_seconds(date.offset_secs).ok()?;
    let utc = OffsetDateTime::from_unix_timestamp_nanos(date.unix_nanos).ok()?;
    let moved = utc.checked_to_offset(offset)?.checked_add(Duration::seconds(seconds))?;
    Some(
        DueDate {
            unix_nanos: moved.unix_timestamp_nanos(),
            offset_secs: moved.offset().whole_seconds(),
        },
    )
}

/// `OffsetDateTime::parse` with `Iso8601::DEFAULT`: the date that the text
/// gives; none where it does not parse.
#[verifier::external_body]
pub(crate) fn parse_iso8601(text: &str) -> (date: Option<DueDate>)
    ensures
        date == iso8601_parsed(text@),
{
    let parsed = OffsetDateTime::parse(text, &Iso8601::DEFAULT).ok()?;
    Some(
        DueDate {
            unix_nanos: parsed.unix_timestamp_nanos(),
            offset_secs: parsed.offset().whole_seconds(),
        },
    )
}

/// `OffsetDateTime::format` with `Iso8601::DATE`: the calendar day of the
/// date in its offset; none for a date outside the calendar.
#[verifier::external_body]
pub(crate) fn format_iso8601_day(date: DueDate) -> (day: Option<String>)
    ensures
        text_view(day) == iso8601_day(date),
{
    let offset = UtcOffset::from_whole_seconds(date.offset_secs).ok()?;
    let utc = OffsetDateTime::from_unix_timestamp_nanos(date.unix_nanos).ok()?;
    utc.checked_to_offset(offset)?.format(&Iso8601::DATE).ok()
}

} // verus!
