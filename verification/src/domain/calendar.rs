//! Calendar arithmetic and text forms of instants, all of it done by `chrono`.
//!
//! An instant is given as whole seconds since the Unix epoch plus nanoseconds
//! within the second; a zone as its offset in seconds east of UTC. The spec
//! functions without a body name what `chrono` computes for such values; the
//! functions marked `external_body` make the calls, and their contracts are
//! taken on trust. Those that consult the machine's zone, the `local_` ones,
//! claim of what comes back only what holds in every zone; `read_clock`
//! claims nothing.

use vstd::prelude::*;

verus! {

/// Timestamp of `0000-01-01T00:00:00Z`, the first second that RFC 3339 can write.
pub const MIN_TIMESTAMP: i64 = -62_167_219_200;

/// Timestamp of `9999-12-31T23:59:59Z`, the last second that RFC 3339 can write.
pub const MAX_TIMESTAMP: i64 = 253_402_300_799;

/// Nanoseconds in one second.
pub const NANOS_PER_SECOND: u32 = 1_000_000_000;

/// An instant of a four-digit year, without a leap-second marker.
pub open spec fn valid_instant(secs: int, nanos: int) -> bool {
    &&& MIN_TIMESTAMP <= secs <= MAX_TIMESTAMP
    &&& 0 <= nanos < NANOS_PER_SECOND
}

/// An offset from UTC of less than one day.
pub open spec fn valid_offset(offset: int) -> bool {
    -86_400 < offset < 86_400
}

/// What a local wall-clock time maps to in a zone: one instant, two, or none.
#[derive(Debug)]
pub enum LocalTimeMapping<T> {
    Single(T),
    Ambiguous(T, T),
    Unmapped,
}

/// A pair of machine integers as mathematical ones.
pub open spec fn widened(found: Option<(i64, u32)>) -> Option<(int, int)> {
    match found {
        Some((secs, nanos)) => Some((secs as int, nanos as int)),
        None => None,
    }
}

/// A mapping to pairs of machine integers as one to mathematical ones.
pub open spec fn widened_mapping(found: LocalTimeMapping<(i64, u32)>) -> LocalTimeMapping<
    (int, int),
> {
    match found {
        LocalTimeMapping::Single((secs, nanos)) => LocalTimeMapping::Single(
            (secs as int, nanos as int),
        ),
        LocalTimeMapping::Ambiguous((s1, n1), (s2, n2)) => LocalTimeMapping::Ambiguous(
            (s1 as int, n1 as int),
            (s2 as int, n2 as int),
        ),
        LocalTimeMapping::Unmapped => LocalTimeMapping::Unmapped,
    }
}

/// Whether an instant lies `days` calendar days after another in a zone whose
/// offset may have changed between the two: the nanoseconds are the same,
/// and the seconds are `days` times 86 400 later, give or take less than two
/// days, since each of the two offsets is less than one day.
pub open spec fn days_apart_in_a_zone(
    secs: int,
    nanos: int,
    later_secs: int,
    later_nanos: int,
    days: int,
) -> bool {
    &&& later_nanos == nanos
    &&& secs + 86_400 * days - 172_800 < later_secs < secs + 86_400 * days + 172_800
}

/// Whether an instant lies `months` calendar months after another in such a
/// zone: the nanoseconds are the same, and the seconds are later by 28 to 31
/// days for each month, give or take less than two days.
pub open spec fn months_apart_in_a_zone(
    secs: int,
    nanos: int,
    later_secs: int,
    later_nanos: int,
    months: int,
) -> bool {
    &&& later_nanos == nanos
    &&& secs + 2_419_200 * months - 172_800 < later_secs < secs + 2_678_400 * months
        + 172_800
}

/// Whether a clock `offset` seconds east of UTC, an offset of less than a
/// day, shows the given date and time at the given instant and at no other.
pub open spec fn shows_wall_clock(
    secs: int,
    nanos: int,
    offset: int,
    year: int,
    month: int,
    day: int,
    hour: int,
    min: int,
    sec: int,
) -> bool {
    &&& valid_offset(offset)
    &&& wall_clock_instant(offset, year, month, day, hour, min, sec) == LocalTimeMapping::Single(
        (secs, nanos),
    )
}

/// Whether each instant of a mapping is one at which the clock of the offset
/// that comes with it shows the given date and time.
pub open spec fn mapping_shows_wall_clock(
    mapping: LocalTimeMapping<(i64, u32, i32)>,
    year: int,
    month: int,
    day: int,
    hour: int,
    min: int,
    sec: int,
) -> bool {
    match mapping {
        LocalTimeMapping::Single((s, n, o)) => shows_wall_clock(
            s as int,
            n as int,
            o as int,
            year,
            month,
            day,
            hour,
            min,
            sec,
        ),
        LocalTimeMapping::Ambiguous((s1, n1, o1), (s2, n2, o2)) => shows_wall_clock(
            s1 as int,
            n1 as int,
            o1 as int,
            year,
            month,
            day,
            hour,
            min,
            sec,
        ) && shows_wall_clock(s2 as int, n2 as int, o2 as int, year, month, day, hour, min, sec),
        LocalTimeMapping::Unmapped => true,
    }
}

/// The `strftime` patterns that event labels are written with.
pub open spec fn is_label_pattern(pattern: Seq<char>) -> bool {
    ||| pattern == "%H:%M"@
    ||| pattern == "%A"@
    ||| pattern == "%A %e"@
    ||| pattern == "%B %e"@
    ||| pattern == "%B %e %Y"@
}

/// The character of a decimal digit.
pub open spec fn digit_char(digit: int) -> char {
    seq!['0', '1', '2', '3', '4', '5', '6', '7', '8', '9'][digit]
}

/// A number below one hundred, written with two digits.
pub open spec fn two_digits(number: int) -> Seq<char> {
    seq![digit_char(number / 10), digit_char(number % 10)]
}

/// Seconds since midnight on a clock `offset` seconds east of UTC.
pub open spec fn second_of_day(secs: int, offset: int) -> int {
    (secs + offset) % 86_400
}

/// Hour and minute on that clock, each with two digits, a colon between
/// them: the hour from 00 to 23, the minute from 00 to 59.
pub open spec fn hour_and_minute(secs: int, offset: int) -> Seq<char> {
    two_digits(second_of_day(secs, offset) / 3_600) + seq![':'] + two_digits(
        second_of_day(secs, offset) % 3_600 / 60,
    )
}

/// Days from 1970-01-01 to the day of the instant on a clock `offset` seconds
/// east of UTC; negative before 1970.
pub open spec fn day_number(secs: int, offset: int) -> int {
    (secs + offset) / 86_400
}

/// The English name of the weekday of the instant on that clock. Day
/// number 0, the first of January 1970, was a Thursday.
pub open spec fn weekday_name(secs: int, offset: int) -> Seq<char> {
    let from_sunday = (day_number(secs, offset) + 4) % 7;
    if from_sunday == 0 {
        "Sunday"@
    } else if from_sunday == 1 {
        "Monday"@
    } else if from_sunday == 2 {
        "Tuesday"@
    } else if from_sunday == 3 {
        "Wednesday"@
    } else if from_sunday == 4 {
        "Thursday"@
    } else if from_sunday == 5 {
        "Friday"@
    } else {
        "Saturday"@
    }
}

/// The English name of a month, by its number from 1 to 12.
pub open spec fn month_name(month: int) -> Seq<char> {
    if month == 1 {
        "January"@
    } else if month == 2 {
        "February"@
    } else if month == 3 {
        "March"@
    } else if month == 4 {
        "April"@
    } else if month == 5 {
        "May"@
    } else if month == 6 {
        "June"@
    } else if month == 7 {
        "July"@
    } else if month == 8 {
        "August"@
    } else if month == 9 {
        "September"@
    } else if month == 10 {
        "October"@
    } else if month == 11 {
        "November"@
    } else {
        "December"@
    }
}

/// A day of the month in two characters: a space before a single digit.
pub open spec fn padded_day(day: int) -> Seq<char> {
    if day < 10 {
        seq![' ', digit_char(day)]
    } else {
        two_digits(day)
    }
}

/// A year from 0 to 9999 in four digits.
pub open spec fn four_digits(year: int) -> Seq<char> {
    two_digits(year / 100) + two_digits(year % 100)
}

/// What a label pattern writes, spelled out, for an instant on a clock
/// `offset` seconds east of UTC:
/// - `%H:%M`: hour and minute;
/// - `%A`: the weekday's name;
/// - `%A %e`: the weekday's name, a space, the day of the month;
/// - `%B %e`: the month's name, a space, the day of the month;
/// - `%B %e %Y`: the same, a space, and the year in four digits, for a year
///   from 0 to 9999.
/// `None` for a year outside that range and for any other pattern.
pub open spec fn spelled_label(secs: int, nanos: int, offset: int, pattern: Seq<char>) -> Option<
    Seq<char>,
> {
    let day = padded_day(civil_day(secs, nanos, offset));
    let month = month_name(civil_month(secs, nanos, offset));
    let year = civil_year(secs, nanos, offset);
    if pattern == "%H:%M"@ {
        Some(hour_and_minute(secs, offset))
    } else if pattern == "%A"@ {
        Some(weekday_name(secs, offset))
    } else if pattern == "%A %e"@ {
        Some(weekday_name(secs, offset) + seq![' '] + day)
    } else if pattern == "%B %e"@ {
        Some(month + seq![' '] + day)
    } else if pattern == "%B %e %Y"@ && 0 <= year <= 9999 {
        Some(month + seq![' '] + day + seq![' '] + four_digits(year))
    } else {
        None
    }
}

/// Calendar year of the instant, read on a clock `offset` seconds east of UTC.
pub uninterp spec fn civil_year(secs: int, nanos: int, offset: int) -> int;

/// Month (1 to 12) of the instant on that clock.
pub uninterp spec fn civil_month(secs: int, nanos: int, offset: int) -> int;

/// Day of the month (1 to 31) of the instant on that clock.
pub uninterp spec fn civil_day(secs: int, nanos: int, offset: int) -> int;

/// The instants, as seconds and nanoseconds, at which a clock `offset` seconds
/// east of UTC shows the given date and time.
pub uninterp spec fn wall_clock_instant(
    offset: int,
    year: int,
    month: int,
    day: int,
    hour: int,
    min: int,
    sec: int,
) -> LocalTimeMapping<(int, int)>;

/// The instant `months` calendar months after the given one on that clock, if there is one.
pub uninterp spec fn months_later(secs: int, nanos: int, offset: int, months: int) -> Option<
    (int, int),
>;

/// The instant with the same month, day and time of day in `year` on that clock, if there is one.
pub uninterp spec fn same_date_in_year(secs: int, nanos: int, offset: int, year: int) -> Option<
    (int, int),
>;

/// The instant written on that clock after a `strftime` pattern.
pub uninterp spec fn strftime_text(secs: int, nanos: int, offset: int, pattern: Seq<char>) -> Seq<
    char,
>;

/// The instant written on that clock as date, time and offset.
pub uninterp spec fn display_text(secs: int, nanos: int, offset: int) -> Seq<char>;

/// The instant written in UTC after RFC 3339.
pub uninterp spec fn rfc3339_text(secs: int, nanos: int) -> Seq<char>;

/// The instant and the offset that an RFC 3339 text stands for, if it is one.
pub uninterp spec fn rfc3339_reading(text: Seq<char>) -> Option<(int, int, int)>;

/// `chrono::Datelike::year` on a `DateTime<FixedOffset>`: the result is `civil_year`.
#[verifier::external_body]
pub(crate) fn year_of(secs: i64, nanos: u32, offset: i32) -> (year: i32)
    requires
        valid_instant(secs as int, nanos as int),
        valid_offset(offset as int),
    ensures
        year == civil_year(secs as int, nanos as int, offset as int),
{
    let zone = chrono::FixedOffset::east_opt(offset).unwrap();
    let local = chrono::DateTime::from_timestamp(secs, nanos).unwrap().with_timezone(&zone);
    chrono::Datelike::year(&local)
}

/// `chrono::Datelike::month` on a `DateTime<FixedOffset>`: the result is `civil_month`.
#[verifier::external_body]
pub(crate) fn month_of(secs: i64, nanos: u32, offset: i32) -> (month: u32)
    requires
        valid_instant(secs as int, nanos as int),
        valid_offset(offset as int),
    ensures
        month == civil_month(secs as int, nanos as int, offset as int),
{
    let zone = chrono::FixedOffset::east_opt(offset).unwrap();
    let local = chrono::DateTime::from_timestamp(secs, nanos).unwrap().with_timezone(&zone);
    chrono::Datelike::month(&local)
}

/// `chrono::Datelike::day` on a `DateTime<FixedOffset>`: the result is `civil_day`.
#[verifier::external_body]
pub(crate) fn day_of(secs: i64, nanos: u32, offset: i32) -> (day: u32)
    requires
        valid_instant(secs as int, nanos as int),
        valid_offset(offset as int),
    ensures
        day == civil_day(secs as int, nanos as int, offset as int),
{
    let zone = chrono::FixedOffset::east_opt(offset).unwrap();
    let local = chrono::DateTime::from_timestamp(secs, nanos).unwrap().with_timezone(&zone);
    chrono::Datelike::day(&local)
}

/// `chrono::TimeZone::with_ymd_and_hms` on a `FixedOffset`: the result is
/// `wall_clock_instant`, each instant given as its timestamp and nanoseconds.
#[verifier::external_body]
pub(crate) fn instant_at(
    offset: i32,
    year: i32,
    month: u32,
    day: u32,
    hour: u32,
    min: u32,
    sec: u32,
) -> (mapping: LocalTimeMapping<(i64, u32)>)
    requires
        valid_offset(offset as int),
    ensures
        widened_mapping(mapping) == wall_clock_instant(
            offset as int,
            year as int,
            month as int,
            day as int,
            hour as int,
            min as int,
            sec as int,
        ),
{
    let zone = chrono::FixedOffset::east_opt(offset).unwrap();
    match chrono::TimeZone::with_ymd_and_hms(&zone, year, month, day, hour, min, sec) {
        chrono::MappedLocalTime::Single(t) => LocalTimeMapping::Single(
            (t.timestamp(), t.timestamp_subsec_nanos()),
        ),
        chrono::MappedLocalTime::Ambiguous(a, b) => LocalTimeMapping::Ambiguous(
            (a.timestamp(), a.timestamp_subsec_nanos()),
            (b.timestamp(), b.timestamp_subsec_nanos()),
        ),
        chrono::MappedLocalTime::None => LocalTimeMapping::Unmapped,
    }
}

/// `chrono::DateTime::checked_add_days` on a `DateTime<FixedOffset>`. On a
/// fixed offset a calendar day is 86 400 seconds: the instant that comes back
/// is that many seconds later for each day, nanoseconds kept, and one comes
/// back wherever that instant is a valid one.
#[verifier::external_body]
pub(crate) fn add_days(secs: i64, nanos: u32, offset: i32, days: u64) -> (moved: Option<(i64, u32)>)
    requires
        valid_instant(secs as int, nanos as int),
        valid_offset(offset as int),
    ensures
        moved matches Some((later, kept)) ==> later == secs + 86_400 * days && kept == nanos,
        valid_instant(secs + 86_400 * days, nanos as int) ==> moved is Some,
{
    let zone = chrono::FixedOffset::east_opt(offset).unwrap();
    let local = chrono::DateTime::from_timestamp(secs, nanos).unwrap().with_timezone(&zone);
    local.checked_add_days(chrono::Days::new(days)).map(
        |t| (t.timestamp(), t.timestamp_subsec_nanos()),
    )
}

/// `chrono::DateTime::checked_add_months` on a `DateTime<FixedOffset>`: the
/// result is `months_later`.
#[verifier::external_body]
pub(crate) fn add_months(secs: i64, nanos: u32, offset: i32, months: u32) -> (moved: Option<
    (i64, u32),
>)
    requires
        valid_instant(secs as int, nanos as int),
        valid_offset(offset as int),
    ensures
        widened(moved) == months_later(secs as int, nanos as int, offset as int, months as int),
{
    let zone = chrono::FixedOffset::east_opt(offset).unwrap();
    let local = chrono::DateTime::from_timestamp(secs, nanos).unwrap().with_timezone(&zone);
    local.checked_add_months(chrono::Months::new(months)).map(
        |t| (t.timestamp(), t.timestamp_subsec_nanos()),
    )
}

/// `chrono::Datelike::with_year` on a `DateTime<FixedOffset>`: the result is
/// `same_date_in_year`.
#[verifier::external_body]
pub(crate) fn in_year(secs: i64, nanos: u32, offset: i32, year: i32) -> (moved: Option<(i64, u32)>)
    requires
        valid_instant(secs as int, nanos as int),
        valid_offset(offset as int),
    ensures
        widened(moved) == same_date_in_year(secs as int, nanos as int, offset as int, year as int),
{
    let zone = chrono::FixedOffset::east_opt(offset).unwrap();
    let local = chrono::DateTime::from_timestamp(secs, nanos).unwrap().with_timezone(&zone);
    chrono::Datelike::with_year(&local, year).map(|t| (t.timestamp(), t.timestamp_subsec_nanos()))
}

/// `chrono::DateTime::format` on a `DateTime<FixedOffset>`, written out: the
/// result is `strftime_text`. Only the label patterns are admitted, which
/// `chrono` can always write, and for them the result is spelled out as
/// `chrono` documents each specifier: `%H` is the hour from 00 to 23 and `%M`
/// the minute from 00 to 59, each padded with a zero to two digits; `%A` is
/// the full English name of the weekday and `%B` that of the month; `%e` is
/// the day of the month, padded with a space to two characters; `%Y` is the
/// year of the date, padded with zeros to four digits from 0 to 9999 (and
/// written with a sign outside that range, which is not spelled out here).
#[verifier::external_body]
pub(crate) fn write_with(secs: i64, nanos: u32, offset: i32, pattern: &str) -> (text: String)
    requires
        valid_instant(secs as int, nanos as int),
        valid_offset(offset as int),
        is_label_pattern(pattern@),
    ensures
        text@ == strftime_text(secs as int, nanos as int, offset as int, pattern@),
        spelled_label(secs as int, nanos as int, offset as int, pattern@) matches Some(spelled)
            ==> text@ == spelled,
{
    let zone = chrono::FixedOffset::east_opt(offset).unwrap();
    let local = chrono::DateTime::from_timestamp(secs, nanos).unwrap().with_timezone(&zone);
    format!("{}", local.format(pattern))
}

/// `Display` of a `chrono::DateTime<FixedOffset>`: the result is `display_text`.
#[verifier::external_body]
pub(crate) fn write_plain(secs: i64, nanos: u32, offset: i32) -> (text: String)
    requires
        valid_instant(secs as int, nanos as int),
        valid_offset(offset as int),
    ensures
        text@ == display_text(secs as int, nanos as int, offset as int),
{
    let zone = chrono::FixedOffset::east_opt(offset).unwrap();
    let local = chrono::DateTime::from_timestamp(secs, nanos).unwrap().with_timezone(&zone);
    format!("{}", local)
}

/// `chrono::DateTime::to_rfc3339` on a `DateTime<Utc>`: the result is
/// `rfc3339_text`, and `chrono::DateTime::parse_from_rfc3339` reads it back as
/// the same instant at offset zero.
#[verifier::external_body]
pub(crate) fn write_rfc3339(secs: i64, nanos: u32) -> (text: String)
    requires
        valid_instant(secs as int, nanos as int),
    ensures
        text@ == rfc3339_text(secs as int, nanos as int),
        rfc3339_reading(text@) == Some((secs as int, nanos as int, 0int)),
{
    chrono::DateTime::from_timestamp(secs, nanos).unwrap().to_rfc3339()
}

/// `chrono::DateTime::parse_from_rfc3339`: the result is `rfc3339_reading`,
/// given as timestamp, nanoseconds and offset.
#[verifier::external_body]
pub(crate) fn read_rfc3339(text: &str) -> (reading: Option<(i64, u32, i32)>)
    ensures
        match reading {
            Some((secs, nanos, offset)) => rfc3339_reading(text@) == Some(
                (secs as int, nanos as int, offset as int),
            ),
            None => rfc3339_reading(text@) is None,
        },
{
    chrono::DateTime::parse_from_rfc3339(text).ok().map(
        |t| (t.timestamp(), t.timestamp_subsec_nanos(), t.offset().local_minus_utc()),
    )
}

/// `chrono::DateTime::with_timezone` to `chrono::Local`, and the offset that
/// the result carries: the offset of the machine's zone at the instant. Which
/// offset depends on the machine; like every offset of `chrono`, it is less
/// than a day.
#[verifier::external_body]
pub(crate) fn local_offset_at(secs: i64, nanos: u32) -> (offset: i32)
    requires
        valid_instant(secs as int, nanos as int),
    ensures
        valid_offset(offset as int),
{
    let utc = chrono::DateTime::from_timestamp(secs, nanos).unwrap();
    utc.with_timezone(&chrono::Local).offset().local_minus_utc()
}

/// `chrono::TimeZone::with_ymd_and_hms` on `chrono::Local`: the instants at
/// which the machine's zone shows the given date and time, each as its
/// timestamp, its nanoseconds and the offset of the zone at it. How many
/// there are, and at which offsets, depends on the machine. Each is the
/// wall-clock time less its offset, as it is on a clock fixed at that
/// offset: `wall_clock_instant` for that offset is that one instant.
#[verifier::external_body]
pub(crate) fn local_instant_at(
    year: i32,
    month: u32,
    day: u32,
    hour: u32,
    min: u32,
    sec: u32,
) -> (mapping: LocalTimeMapping<(i64, u32, i32)>)
    ensures
        mapping_shows_wall_clock(
            mapping,
            year as int,
            month as int,
            day as int,
            hour as int,
            min as int,
            sec as int,
        ),
{
    match chrono::TimeZone::with_ymd_and_hms(&chrono::Local, year, month, day, hour, min, sec) {
        chrono::MappedLocalTime::Single(t) => LocalTimeMapping::Single(
            (t.timestamp(), t.timestamp_subsec_nanos(), t.offset().local_minus_utc()),
        ),
        chrono::MappedLocalTime::Ambiguous(a, b) => LocalTimeMapping::Ambiguous(
            (a.timestamp(), a.timestamp_subsec_nanos(), a.offset().local_minus_utc()),
            (b.timestamp(), b.timestamp_subsec_nanos(), b.offset().local_minus_utc()),
        ),
        chrono::MappedLocalTime::None => LocalTimeMapping::Unmapped,
    }
}

/// `chrono::DateTime::checked_add_days` on a `DateTime<Local>`: the instant
/// `days` calendar days later in the machine's zone. Whether there is one,
/// and which, depends on the machine. The days are added to the local date
/// and the time of day is kept, so one that comes back is
/// `days_apart_in_a_zone` from the given one.
#[verifier::external_body]
pub(crate) fn local_add_days(secs: i64, nanos: u32, days: u64) -> (moved: Option<(i64, u32)>)
    requires
        valid_instant(secs as int, nanos as int),
    ensures
        moved matches Some((later, kept)) ==> days_apart_in_a_zone(
            secs as int,
            nanos as int,
            later as int,
            kept as int,
            days as int,
        ),
{
    let utc = chrono::DateTime::from_timestamp(secs, nanos).unwrap();
    utc.with_timezone(&chrono::Local).checked_add_days(chrono::Days::new(days)).map(
        |t| (t.timestamp(), t.timestamp_subsec_nanos()),
    )
}

/// `chrono::DateTime::checked_add_months` on a `DateTime<Local>`: the instant
/// `months` calendar months later in the machine's zone. Whether there is
/// one, and which, depends on the machine. The months are added to the local
/// date, the day moved back to the last of a shorter month, and the time of
/// day is kept, so one that comes back is `months_apart_in_a_zone` from the
/// given one.
#[verifier::external_body]
pub(crate) fn local_add_months(secs: i64, nanos: u32, months: u32) -> (moved: Option<(i64, u32)>)
    requires
        valid_instant(secs as int, nanos as int),
    ensures
        moved matches Some((later, kept)) ==> months_apart_in_a_zone(
            secs as int,
            nanos as int,
            later as int,
            kept as int,
            months as int,
        ),
{
    let utc = chrono::DateTime::from_timestamp(secs, nanos).unwrap();
    utc.with_timezone(&chrono::Local).checked_add_months(chrono::Months::new(months)).map(
        |t| (t.timestamp(), t.timestamp_subsec_nanos()),
    )
}

/// `chrono::Datelike::with_year` on a `DateTime<Local>`: the instant with the
/// same month, day and time of day in `year` in the machine's zone, as its
/// timestamp, its nanoseconds and the offset of the zone at it. Whether
/// there is one, and which, depends on the machine. One that comes back
/// keeps the nanoseconds, and on the clock of its offset its year is `year`.
#[verifier::external_body]
pub(crate) fn local_in_year(secs: i64, nanos: u32, year: i32) -> (moved: Option<(i64, u32, i32)>)
    requires
        valid_instant(secs as int, nanos as int),
    ensures
        moved matches Some((later, kept, offset)) ==> {
            &&& kept == nanos
            &&& valid_offset(offset as int)
            &&& valid_instant(later as int, kept as int) ==> civil_year(
                later as int,
                kept as int,
                offset as int,
            ) == year
        },
{
    let utc = chrono::DateTime::from_timestamp(secs, nanos).unwrap();
    chrono::Datelike::with_year(&utc.with_timezone(&chrono::Local), year).map(
        |t| (t.timestamp(), t.timestamp_subsec_nanos(), t.offset().local_minus_utc()),
    )
}

/// `chrono::Local::now`, given as timestamp, nanoseconds and the offset of the
/// local zone at that moment. Nothing is claimed of the reading. Like
/// `chrono`, it panics where the system clock stands before 1970.
#[verifier::external_body]
pub(crate) fn read_clock() -> (reading: (i64, u32, i32)) {
    let now = chrono::Local::now();
    (now.timestamp(), now.timestamp_subsec_nanos(), now.offset().local_minus_utc())
}

} // verus!
