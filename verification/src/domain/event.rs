//! Events, the instants they begin and end at, and the label that tells a
//! reader when an event begins relative to now.

use crate::domain::calendar::{
    add_days, add_months, civil_day, civil_month, civil_year, day_of, days_apart_in_a_zone,
    display_text, four_digits, hour_and_minute, in_year, instant_at, local_add_days,
    local_add_months, local_in_year, local_instant_at, local_offset_at,
    month_name, month_of, months_apart_in_a_zone, months_later,
    padded_day, read_clock, read_rfc3339, rfc3339_reading, rfc3339_text, same_date_in_year,
    second_of_day, shows_wall_clock, spelled_label, strftime_text, two_digits, valid_instant,
    valid_offset, wall_clock_instant, weekday_name, widened, write_plain, write_rfc3339,
    write_with, year_of, LocalTimeMapping, MAX_TIMESTAMP, MIN_TIMESTAMP, NANOS_PER_SECOND,
};
use crate::domain::picture_url::PictureUrl;
use uuid::Uuid;
use vstd::prelude::*;

verus! {

#[verifier::external_type_specification]
#[verifier::external_body]
pub struct ExUuid(uuid::Uuid);

/// Nanoseconds in one hour.
pub const NANOS_PER_HOUR: i128 = 3_600_000_000_000;

/// Nanoseconds in one day.
pub const NANOS_PER_DAY: i128 = 86_400_000_000_000;

/// An instant as contracts see it: seconds since the Unix epoch, and
/// nanoseconds within the second.
pub struct Instant {
    pub secs: int,
    pub nanos: int,
}

impl Instant {
    /// Position of the instant on the time line.
    pub open spec fn nanos_since_epoch(self) -> int {
        self.secs * 1_000_000_000 + self.nanos
    }

    /// Whether the instant lies in a four-digit year and carries no leap-second marker.
    pub open spec fn is_valid(self) -> bool {
        valid_instant(self.secs, self.nanos)
    }

    /// Strictly earlier.
    pub open spec fn before(self, other: Instant) -> bool {
        self.nanos_since_epoch() < other.nanos_since_epoch()
    }
}

/// An instant together with the offset of the clock it is read on.
pub struct LocalInstant {
    pub instant: Instant,
    pub offset: int,
}

impl LocalInstant {
    /// Whether the instant is valid and the offset is less than a day.
    pub open spec fn is_valid(self) -> bool {
        self.instant.is_valid() && valid_offset(self.offset)
    }
}

/// The instant that a pair of numbers stands for, if it is a valid one.
pub open spec fn checked_instant(pair: Option<(int, int)>) -> Option<Instant> {
    match pair {
        Some((secs, nanos)) => if valid_instant(secs, nanos) {
            Some(Instant { secs, nanos })
        } else {
            None
        },
        None => None,
    }
}

/// Nanoseconds within a second, a leap second counted as the last
/// nanosecond of the second before it.
pub open spec fn without_leap_second(nanos: int) -> int {
    if nanos >= NANOS_PER_SECOND {
        NANOS_PER_SECOND - 1
    } else {
        nanos
    }
}

/// The instant that an RFC 3339 text stands for, if it is a valid one. A
/// text that writes a leap second stands for none.
pub open spec fn instant_reading(text: Seq<char>) -> Option<Instant> {
    match rfc3339_reading(text) {
        Some((secs, nanos, _)) => checked_instant(Some((secs, nanos))),
        None => None,
    }
}

/// The instant and offset that an RFC 3339 text stands for, if both are valid.
pub open spec fn local_reading(text: Seq<char>) -> Option<LocalInstant> {
    match (instant_reading(text), rfc3339_reading(text)) {
        (Some(instant), Some((_, _, offset))) => if valid_offset(offset) {
            Some(LocalInstant { instant, offset })
        } else {
            None
        },
        _ => None,
    }
}

/// The nearest valid instant to two arbitrary numbers.
pub open spec fn clamped_instant(secs: int, nanos: int) -> Instant {
    Instant {
        secs: if secs < MIN_TIMESTAMP {
            MIN_TIMESTAMP as int
        } else if secs > MAX_TIMESTAMP {
            MAX_TIMESTAMP as int
        } else {
            secs
        },
        nanos: if nanos < 0 {
            0
        } else {
            without_leap_second(nanos)
        },
    }
}

/// The nearest valid instant and offset to three arbitrary numbers.
pub open spec fn clamped_reading(secs: int, nanos: int, offset: int) -> LocalInstant {
    LocalInstant {
        instant: clamped_instant(secs, nanos),
        offset: if offset <= -86_400 {
            -86_399
        } else if offset >= 86_400 {
            86_399
        } else {
            offset
        },
    }
}

/// A UTC instant between `0000-01-01T00:00:00Z` and
/// `9999-12-31T23:59:59.999999999Z`: what RFC 3339 can write. A leap second
/// is no instant of this type; `saturating_new` gives the nearest that is.
#[derive(Clone, Copy, Debug, PartialEq, Eq, Structural)]
pub struct DateTime {
    secs: i64,
    nanos: u32,
}

impl View for DateTime {
    type V = Instant;

    closed spec fn view(&self) -> Instant {
        Instant { secs: self.secs as int, nanos: self.nanos as int }
    }
}

impl DateTime {
    #[verifier::type_invariant]
    spec fn well_formed(self) -> bool {
        valid_instant(self.secs as int, self.nanos as int)
    }

    /// The instant `secs` seconds and `nanos` nanoseconds after the Unix
    /// epoch, if it is a valid one.
    pub fn new(secs: i64, nanos: u32) -> (made: Option<DateTime>)
        ensures
            made is Some <==> valid_instant(secs as int, nanos as int),
            made matches Some(t) ==> t@ == (Instant { secs: secs as int, nanos: nanos as int }),
    {
        if MIN_TIMESTAMP <= secs && secs <= MAX_TIMESTAMP && nanos < NANOS_PER_SECOND {
            Some(DateTime { secs, nanos })
        } else {
            None
        }
    }

    /// The valid instant nearest to two arbitrary numbers: each is moved to
    /// the nearest bound it is beyond.
    pub fn saturating_new(secs: i64, nanos: u32) -> (made: DateTime)
        ensures
            made@ == clamped_instant(secs as int, nanos as int),
            made@.is_valid(),
    {
        let secs: i64 = if secs < MIN_TIMESTAMP {
            MIN_TIMESTAMP
        } else if secs > MAX_TIMESTAMP {
            MAX_TIMESTAMP
        } else {
            secs
        };
        let nanos: u32 = Self::drop_leap_second(nanos);
        DateTime { secs, nanos }
    }

    /// Nanoseconds within a second, a leap second counted as the last
    /// nanosecond of the second before it.
    pub fn drop_leap_second(nanos: u32) -> (kept: u32)
        ensures
            kept == without_leap_second(nanos as int),
    {
        if nanos >= NANOS_PER_SECOND {
            NANOS_PER_SECOND - 1
        } else {
            nanos
        }
    }

    /// The offset from UTC, in seconds east, that the machine's zone has at
    /// this instant: which one depends on the machine.
    pub fn local_offset(&self) -> (offset: i32)
        ensures
            valid_offset(offset as int),
    {
        proof {
            use_type_invariant(self);
        }
        local_offset_at(self.secs, self.nanos)
    }

    /// Whole seconds since the Unix epoch.
    pub fn timestamp(&self) -> (secs: i64)
        ensures
            secs == self@.secs,
            self@.is_valid(),
    {
        proof {
            use_type_invariant(self);
        }
        self.secs
    }

    /// Nanoseconds since the last whole second.
    pub fn timestamp_subsec_nanos(&self) -> (nanos: u32)
        ensures
            nanos == self@.nanos,
            self@.is_valid(),
    {
        proof {
            use_type_invariant(self);
        }
        self.nanos
    }

    /// Position on the time line, in nanoseconds since the Unix epoch.
    pub fn nanos_since_epoch(&self) -> (position: i128)
        ensures
            position == self@.nanos_since_epoch(),
            self@.is_valid(),
    {
        proof {
            use_type_invariant(self);
        }
        let secs: i128 = self.secs as i128;
        let nanos: i128 = self.nanos as i128;
        secs * 1_000_000_000 + nanos
    }

    /// Whether this instant is strictly earlier than `other`.
    pub fn is_before(&self, other: &DateTime) -> (earlier: bool)
        ensures
            earlier == self@.before(other@),
    {
        self.nanos_since_epoch() < other.nanos_since_epoch()
    }

    /// The instant in its wire form, an RFC 3339 text in UTC. Reading the text
    /// gives the instant back.
    pub fn to_rfc3339(&self) -> (text: String)
        ensures
            text@ == rfc3339_text(self@.secs, self@.nanos),
            instant_reading(text@) == Some(self@),
    {
        proof {
            use_type_invariant(self);
        }
        write_rfc3339(self.secs, self.nanos)
    }

    /// The instant that an RFC 3339 text stands for, whatever offset it is
    /// written with; `None` where the text is no RFC 3339 date and time or
    /// the instant is not a valid one, as where the text writes a leap
    /// second. What reads is read without loss: writing the instant and
    /// reading it again gives the same instant.
    pub fn parse_from_rfc3339(text: &str) -> (read: Option<DateTime>)
        ensures
            match read {
                Some(t) => instant_reading(text@) == Some(t@),
                None => instant_reading(text@) is None,
            },
    {
        match read_rfc3339(text) {
            Some((secs, nanos, _)) => DateTime::new(secs, nanos),
            None => None,
        }
    }
}

impl Default for DateTime {
    /// The Unix epoch.
    fn default() -> (epoch: DateTime)
        ensures
            epoch@ == (Instant { secs: 0, nanos: 0 }),
    {
        DateTime { secs: 0, nanos: 0 }
    }
}

/// An instant and the offset, in seconds east of UTC, of the clock it was read on.
#[derive(Clone, Copy, Debug, PartialEq, Eq, Structural)]
pub struct LocalDateTime {
    instant: DateTime,
    offset: i32,
}

impl View for LocalDateTime {
    type V = LocalInstant;

    closed spec fn view(&self) -> LocalInstant {
        LocalInstant { instant: self.instant@, offset: self.offset as int }
    }
}

impl LocalDateTime {
    #[verifier::type_invariant]
    spec fn well_formed(self) -> bool {
        valid_offset(self.offset as int)
    }

    /// The instant on a clock `offset` seconds east of UTC, if the offset is
    /// less than a day.
    pub fn new(instant: DateTime, offset: i32) -> (made: Option<LocalDateTime>)
        ensures
            made is Some <==> valid_offset(offset as int),
            made matches Some(t) ==> t@ == (LocalInstant { instant: instant@, offset: offset as int }),
    {
        if -86_400 < offset && offset < 86_400 {
            Some(LocalDateTime { instant, offset })
        } else {
            None
        }
    }

    /// The valid reading nearest to three arbitrary numbers: each is moved
    /// to the nearest bound it is beyond.
    pub fn saturating_new(secs: i64, nanos: u32, offset: i32) -> (made: LocalDateTime)
        ensures
            made@ == clamped_reading(secs as int, nanos as int, offset as int),
            made@.is_valid(),
    {
        let offset: i32 = if offset <= -86_400 {
            -86_399
        } else if offset >= 86_400 {
            86_399
        } else {
            offset
        };
        LocalDateTime { instant: DateTime::saturating_new(secs, nanos), offset }
    }

    /// The instant and offset that an RFC 3339 text stands for; `None` where
    /// the text is no RFC 3339 date and time or the instant is not a valid one.
    pub fn parse_from_rfc3339(text: &str) -> (read: Option<LocalDateTime>)
        ensures
            match read {
                Some(t) => local_reading(text@) == Some(t@),
                None => local_reading(text@) is None,
            },
    {
        match read_rfc3339(text) {
            Some((secs, nanos, offset)) => match DateTime::new(secs, nanos) {
                Some(instant) => LocalDateTime::new(instant, offset),
                None => None,
            },
            None => None,
        }
    }

    /// The instant, without the clock.
    pub fn instant(&self) -> (instant: DateTime)
        ensures
            instant@ == self@.instant,
            self@.is_valid(),
    {
        proof {
            use_type_invariant(self);
            use_type_invariant(&self.instant);
        }
        self.instant
    }

    /// The clock's offset in seconds east of UTC.
    pub fn offset(&self) -> (offset: i32)
        ensures
            offset == self@.offset,
            self@.is_valid(),
    {
        proof {
            use_type_invariant(self);
            use_type_invariant(&self.instant);
        }
        self.offset
    }
}

/// The whole number of `unit`s in `span`, rounded towards zero.
pub open spec fn whole_units(span: int, unit: int) -> int {
    if span >= 0 {
        span / unit
    } else {
        -((-span) / unit)
    }
}

/// An event of the platform. Nothing holds `ends_on` to come after
/// `begins_on`: an event that ends before it begins has a negative duration.
#[derive(Debug)]
pub struct Event {
    pub id: Uuid,
    pub title: String,
    pub picture_url: Option<PictureUrl>,
    pub begins_on: DateTime,
    pub ends_on: DateTime,
}

/// `uuid::Uuid::nil`, the identifier of all zero bits. Nothing is claimed of it.
#[verifier::external_body]
fn nil_identifier() -> (id: Uuid) {
    Uuid::nil()
}

impl Default for Event {
    /// An event without title or picture that begins and ends at the Unix
    /// epoch, under the nil identifier.
    fn default() -> (empty: Event)
        ensures
            empty.title@.len() == 0,
            empty.picture_url is None,
            empty.begins_on@ == (Instant { secs: 0, nanos: 0 }),
            empty.ends_on@ == (Instant { secs: 0, nanos: 0 }),
    {
        Event {
            id: nil_identifier(),
            title: String::new(),
            picture_url: None,
            begins_on: DateTime::default(),
            ends_on: DateTime::default(),
        }
    }
}

impl Event {
    /// Nanoseconds from the beginning of the event to its end.
    pub open spec fn span(&self) -> int {
        self.ends_on@.nanos_since_epoch() - self.begins_on@.nanos_since_epoch()
    }

    /// Whether the event lasts one whole day or more.
    pub fn is_long(&self) -> (long: bool)
        ensures
            long == (whole_units(self.span(), NANOS_PER_DAY as int) >= 1),
    {
        let span: i128 = self.ends_on.nanos_since_epoch() - self.begins_on.nanos_since_epoch();
        let days: i128 = if span >= 0 {
            span / NANOS_PER_DAY
        } else {
            -((-span) / NANOS_PER_DAY)
        };
        days >= 1
    }

    /// The whole hours from the beginning of the event to its end, rounded
    /// towards zero; negative where the event ends before it begins.
    pub fn compute_duration_in_hours(&self) -> (hours: i64)
        ensures
            hours == whole_units(self.span(), NANOS_PER_HOUR as int),
    {
        let span: i128 = self.ends_on.nanos_since_epoch() - self.begins_on.nanos_since_epoch();
        let hours: i128 = if span >= 0 {
            span / NANOS_PER_HOUR
        } else {
            -((-span) / NANOS_PER_HOUR)
        };
        hours as i64
    }
}

/// When an event begins, as shown to a reader: it is under way, or it begins
/// at a time that the label tells.
#[derive(Debug, PartialEq)]
pub enum HumanReadableDateTime {
    Now,
    Later(String),
}

/// A `HumanReadableDateTime` as contracts see it.
pub enum Moment {
    Now,
    Later(Seq<char>),
}

impl View for HumanReadableDateTime {
    type V = Moment;

    open spec fn view(&self) -> Moment {
        match self {
            HumanReadableDateTime::Now => Moment::Now,
            HumanReadableDateTime::Later(label) => Moment::Later(label@),
        }
    }
}

/// Four instants after the start of a day on some clock: one day, seven
/// days, one calendar month and one calendar year after it.
#[derive(Debug, Clone, Copy)]
pub struct Breakpoints {
    pub midnight: DateTime,
    pub next_week: DateTime,
    pub next_month: DateTime,
    pub next_year: DateTime,
}

/// `Breakpoints` as contracts see them.
pub struct Thresholds {
    pub midnight: Instant,
    pub next_week: Instant,
    pub next_month: Instant,
    pub next_year: Instant,
}

impl View for Breakpoints {
    type V = Thresholds;

    open spec fn view(&self) -> Thresholds {
        Thresholds {
            midnight: self.midnight@,
            next_week: self.next_week@,
            next_month: self.next_month@,
            next_year: self.next_year@,
        }
    }
}

/// What a mapping settles on: the only one, the first of two, or none.
pub open spec fn first_mapped<T>(mapping: LocalTimeMapping<T>) -> Option<T> {
    match mapping {
        LocalTimeMapping::Single(t) => Some(t),
        LocalTimeMapping::Ambiguous(t, _) => Some(t),
        LocalTimeMapping::Unmapped => None,
    }
}

/// The instant of a mapping that comes first in time: the only one, the
/// earlier of two (the first where they are the same), or none.
pub open spec fn earlier_mapped(mapping: LocalTimeMapping<(i64, u32, i32)>) -> Option<
    (i64, u32, i32),
> {
    match mapping {
        LocalTimeMapping::Single(only) => Some(only),
        LocalTimeMapping::Ambiguous(first, second) => if second.0 < first.0 || (second.0
            == first.0 && second.1 < first.1) {
            Some(second)
        } else {
            Some(first)
        },
        LocalTimeMapping::Unmapped => None,
    }
}

/// Whether breakpoints follow, in some zone, the start of the day that `now`
/// shows on its clock:
/// - `base` is a valid instant at which a clock `offset` seconds east of UTC
///   shows that day at 00:00:00;
/// - the first two breakpoints lie one and seven calendar days after `base`,
///   the third one calendar month after it, the offset free to change;
/// - the fourth keeps the nanoseconds of `base`, and on a clock
///   `year_offset` seconds east of UTC its year is the year after that of
///   `base` on the clock of `offset`;
/// - the fourth comes after the third.
pub open spec fn follow_in_a_zone(
    now: LocalInstant,
    base: Instant,
    offset: int,
    year_offset: int,
    thresholds: Thresholds,
) -> bool {
    &&& base.is_valid()
    &&& shows_wall_clock(
        base.secs,
        base.nanos,
        offset,
        civil_year(now.instant.secs, now.instant.nanos, now.offset),
        civil_month(now.instant.secs, now.instant.nanos, now.offset),
        civil_day(now.instant.secs, now.instant.nanos, now.offset),
        0,
        0,
        0,
    )
    &&& days_apart_in_a_zone(
        base.secs,
        base.nanos,
        thresholds.midnight.secs,
        thresholds.midnight.nanos,
        1,
    )
    &&& days_apart_in_a_zone(
        base.secs,
        base.nanos,
        thresholds.next_week.secs,
        thresholds.next_week.nanos,
        7,
    )
    &&& months_apart_in_a_zone(
        base.secs,
        base.nanos,
        thresholds.next_month.secs,
        thresholds.next_month.nanos,
        1,
    )
    &&& thresholds.next_year.nanos == base.nanos
    &&& valid_offset(year_offset)
    &&& civil_year(thresholds.next_year.secs, thresholds.next_year.nanos, year_offset)
        == civil_year(base.secs, base.nanos, offset) + 1
    &&& thresholds.next_month.before(thresholds.next_year)
}

/// Start of the day of `now` on the clock of `now`, if it is a valid instant.
pub open spec fn day_start(now: LocalInstant) -> Option<Instant> {
    let secs = now.instant.secs;
    let nanos = now.instant.nanos;
    let offset = now.offset;
    checked_instant(
        first_mapped(
            wall_clock_instant(
                offset,
                civil_year(secs, nanos, offset),
                civil_month(secs, nanos, offset),
                civil_day(secs, nanos, offset),
                0,
                0,
                0,
            ),
        ),
    )
}

/// The four thresholds, where each of the four candidates is a valid instant.
pub open spec fn assembled(
    midnight: Option<(int, int)>,
    next_week: Option<(int, int)>,
    next_month: Option<(int, int)>,
    next_year: Option<(int, int)>,
) -> Option<Thresholds> {
    if checked_instant(midnight) is Some && checked_instant(next_week) is Some && checked_instant(
        next_month,
    ) is Some && checked_instant(next_year) is Some {
        Some(
            Thresholds {
                midnight: checked_instant(midnight)->0,
                next_week: checked_instant(next_week)->0,
                next_month: checked_instant(next_month)->0,
                next_year: checked_instant(next_year)->0,
            },
        )
    } else {
        None
    }
}

/// The instant one calendar year after `base` on a clock `offset` seconds
/// east of UTC: same month, day and time in the year after.
pub open spec fn a_year_later(base: Instant, offset: int) -> Option<(int, int)> {
    let year = civil_year(base.secs, base.nanos, offset);
    if year + 1 <= i32::MAX {
        same_date_in_year(base.secs, base.nanos, offset, year + 1)
    } else {
        None
    }
}

/// The thresholds that follow the day's start `base` on that clock: one day
/// and seven days of 86 400 seconds later, one calendar month later, and one
/// calendar year later.
pub open spec fn thresholds_after(base: Instant, offset: int) -> Option<Thresholds> {
    assembled(
        Some((base.secs + 86_400, base.nanos)),
        Some((base.secs + 7 * 86_400, base.nanos)),
        months_later(base.secs, base.nanos, offset, 1),
        a_year_later(base, offset),
    )
}

/// The thresholds for `now`: those that follow the start of its day on its
/// clock. There are none where the day's start or one of the four is not a
/// valid instant.
pub open spec fn thresholds_at(now: LocalInstant) -> Option<Thresholds> {
    match day_start(now) {
        Some(base) => thresholds_after(base, now.offset),
        None => None,
    }
}

impl Breakpoints {
    /// The breakpoints for `now`, if there are any.
    pub fn new(now: &LocalDateTime) -> (made: Option<Breakpoints>)
        ensures
            match made {
                Some(breakpoints) => thresholds_at(now@) == Some(breakpoints@),
                None => thresholds_at(now@) is None,
            },
    {
        let offset: i32 = now.offset();
        let secs: i64 = now.instant().timestamp();
        let nanos: u32 = now.instant().timestamp_subsec_nanos();
        let mapping: LocalTimeMapping<(i64, u32)> = instant_at(
            offset,
            year_of(secs, nanos, offset),
            month_of(secs, nanos, offset),
            day_of(secs, nanos, offset),
            0,
            0,
            0,
        );
        let base: DateTime = match Self::mapped_local_time_to_opt(mapping) {
            Some((base_secs, base_nanos)) => match DateTime::new(base_secs, base_nanos) {
                Some(base) => base,
                None => {
                    return None;
                },
            },
            None => {
                return None;
            },
        };
        let base_secs: i64 = base.timestamp();
        let base_nanos: u32 = base.timestamp_subsec_nanos();
        let next_year: Option<(i64, u32)> = match year_of(base_secs, base_nanos, offset).checked_add(
            1,
        ) {
            Some(year) => in_year(base_secs, base_nanos, offset, year),
            None => None,
        };
        Self::assemble(
            add_days(base_secs, base_nanos, offset, 1),
            add_days(base_secs, base_nanos, offset, 7),
            add_months(base_secs, base_nanos, offset, 1),
            next_year,
        )
    }

    /// The breakpoints for `now` in the machine's zone, with the changes of
    /// offset that the zone goes through: those that follow the start, in
    /// that zone, of the day that `now` shows; where the zone has two such
    /// starts, the earlier. There are none where the zone has no such start
    /// of day; where one of the four does not exist in the zone, exists
    /// twice, or is not a valid instant; or where the year's does not come
    /// after the month's.
    ///
    /// Which instants the zone gives depends on the machine. Whatever it
    /// gives, breakpoints that come back follow a start of that very day,
    /// by one day, seven days, one month and one year, and in this order.
    pub fn in_local_zone(now: &LocalDateTime) -> (made: Option<Breakpoints>)
        ensures
            made matches Some(breakpoints) ==> {
                &&& exists|base: Instant, offset: int, year_offset: int| #[trigger]
                    follow_in_a_zone(now@, base, offset, year_offset, breakpoints@)
                &&& breakpoints@.midnight.before(breakpoints@.next_week)
                &&& breakpoints@.next_week.before(breakpoints@.next_month)
                &&& breakpoints@.next_month.before(breakpoints@.next_year)
            },
    {
        let offset: i32 = now.offset();
        let secs: i64 = now.instant().timestamp();
        let nanos: u32 = now.instant().timestamp_subsec_nanos();
        let mapping: LocalTimeMapping<(i64, u32, i32)> = local_instant_at(
            year_of(secs, nanos, offset),
            month_of(secs, nanos, offset),
            day_of(secs, nanos, offset),
            0,
            0,
            0,
        );
        let (base_secs, base_nanos, base_offset): (i64, u32, i32) = match Self::settle_on_earlier(
            mapping,
        ) {
            Some(reading) => reading,
            None => {
                return None;
            },
        };
        let base: DateTime = match DateTime::new(base_secs, base_nanos) {
            Some(base) => base,
            None => {
                return None;
            },
        };
        let base_year: i32 = year_of(base_secs, base_nanos, base_offset);
        let a_year_on: Option<(i64, u32, i32)> = match base_year.checked_add(1) {
            Some(year) => local_in_year(base_secs, base_nanos, year),
            None => None,
        };
        let (next_year, year_offset): (Option<(i64, u32)>, i32) = match a_year_on {
            Some((later, kept, year_offset)) => (Some((later, kept)), year_offset),
            None => (None, 0),
        };
        let made: Option<Breakpoints> = Self::assemble(
            local_add_days(base_secs, base_nanos, 1),
            local_add_days(base_secs, base_nanos, 7),
            local_add_months(base_secs, base_nanos, 1),
            next_year,
        );
        match made {
            Some(breakpoints) => {
                if breakpoints.next_month.is_before(&breakpoints.next_year) {
                    assert(follow_in_a_zone(
                        now@,
                        base@,
                        base_offset as int,
                        year_offset as int,
                        breakpoints@,
                    ));
                    Some(breakpoints)
                } else {
                    None
                }
            },
            None => None,
        }
    }

    /// What a mapping of instants settles on: the only one, the earlier of
    /// two (the first where they are the same instant), or none. Each
    /// instant comes as its seconds, its nanoseconds and an offset.
    pub fn settle_on_earlier(mapping: LocalTimeMapping<(i64, u32, i32)>) -> (settled: Option<
        (i64, u32, i32),
    >)
        ensures
            settled == earlier_mapped(mapping),
    {
        match mapping {
            LocalTimeMapping::Single(only) => Some(only),
            LocalTimeMapping::Ambiguous(first, second) => {
                if second.0 < first.0 || (second.0 == first.0 && second.1 < first.1) {
                    Some(second)
                } else {
                    Some(first)
                }
            },
            LocalTimeMapping::Unmapped => None,
        }
    }

    /// The breakpoints made of four candidates, each given as seconds and
    /// nanoseconds; `None` unless all four are there and are valid instants.
    pub fn assemble(
        midnight: Option<(i64, u32)>,
        next_week: Option<(i64, u32)>,
        next_month: Option<(i64, u32)>,
        next_year: Option<(i64, u32)>,
    ) -> (made: Option<Breakpoints>)
        ensures
            match made {
                Some(breakpoints) => assembled(
                    widened(midnight),
                    widened(next_week),
                    widened(next_month),
                    widened(next_year),
                ) == Some(breakpoints@),
                None => assembled(
                    widened(midnight),
                    widened(next_week),
                    widened(next_month),
                    widened(next_year),
                ) is None,
            },
    {
        let midnight: DateTime = match Self::checked(midnight) {
            Some(instant) => instant,
            None => {
                return None;
            },
        };
        let next_week: DateTime = match Self::checked(next_week) {
            Some(instant) => instant,
            None => {
                return None;
            },
        };
        let next_month: DateTime = match Self::checked(next_month) {
            Some(instant) => instant,
            None => {
                return None;
            },
        };
        let next_year: DateTime = match Self::checked(next_year) {
            Some(instant) => instant,
            None => {
                return None;
            },
        };
        Some(Breakpoints { midnight, next_week, next_month, next_year })
    }

    /// The instant that a candidate stands for, if it is a valid one.
    fn checked(candidate: Option<(i64, u32)>) -> (made: Option<DateTime>)
        ensures
            match made {
                Some(instant) => checked_instant(widened(candidate)) == Some(instant@),
                None => checked_instant(widened(candidate)) is None,
            },
    {
        match candidate {
            Some((secs, nanos)) => DateTime::new(secs, nanos),
            None => None,
        }
    }

    /// What a mapping of a local time settles on: the only one, the first
    /// of two, or none.
    pub fn mapped_local_time_to_opt<T>(a: LocalTimeMapping<T>) -> (settled: Option<T>)
        ensures
            settled == first_mapped(a),
    {
        match a {
            LocalTimeMapping::Single(t) => Some(t),
            LocalTimeMapping::Ambiguous(t, _) => Some(t),
            LocalTimeMapping::Unmapped => None,
        }
    }
}

/// Where the beginning of an event falls among the breakpoints.
#[derive(Debug, Clone, Copy, PartialEq, Eq, Structural)]
pub enum Bucket {
    /// Before the first breakpoint.
    BeforeMidnight,
    /// From the first breakpoint on, before the second.
    WithinWeek,
    /// From the second breakpoint on, before the third.
    WithinMonth,
    /// From the third breakpoint on, before the fourth.
    WithinYear,
    /// From the fourth breakpoint on.
    Beyond,
    /// In none of the five ranges: there are no breakpoints.
    Unplaced,
}

/// The bucket of a beginning: the first of the five ranges that holds it.
/// Each range includes its start and excludes its end.
pub open spec fn bucket_of(begins: Instant, thresholds: Option<Thresholds>) -> Bucket {
    match thresholds {
        None => Bucket::Unplaced,
        Some(t) => if begins.before(t.midnight) {
            Bucket::BeforeMidnight
        } else if !begins.before(t.midnight) && begins.before(t.next_week) {
            Bucket::WithinWeek
        } else if !begins.before(t.next_week) && begins.before(t.next_month) {
            Bucket::WithinMonth
        } else if !begins.before(t.next_month) && begins.before(t.next_year) {
            Bucket::WithinYear
        } else if !begins.before(t.next_year) {
            Bucket::Beyond
        } else {
            Bucket::Unplaced
        },
    }
}

/// The `strftime` pattern of each bucket's label: the time of day, the
/// weekday, weekday and day, month and day, month, day and year. The last
/// bucket has none.
pub open spec fn label_pattern(bucket: Bucket) -> Option<Seq<char>> {
    match bucket {
        Bucket::BeforeMidnight => Some("%H:%M"@),
        Bucket::WithinWeek => Some("%A"@),
        Bucket::WithinMonth => Some("%A %e"@),
        Bucket::WithinYear => Some("%B %e"@),
        Bucket::Beyond => Some("%B %e %Y"@),
        Bucket::Unplaced => None,
    }
}

/// The label of a beginning in a bucket, on a clock `offset` seconds east of
/// UTC: the beginning written after the bucket's pattern, spelled out where
/// `spelled_label` spells it; written plainly where the bucket has no pattern.
pub open spec fn label_text(begins: Instant, offset: int, bucket: Bucket) -> Seq<char> {
    match label_pattern(bucket) {
        Some(pattern) => match spelled_label(begins.secs, begins.nanos, offset, pattern) {
            Some(spelled) => spelled,
            None => strftime_text(begins.secs, begins.nanos, offset, pattern),
        },
        None => display_text(begins.secs, begins.nanos, offset),
    }
}

/// Whether an event from `begins` to `ends` is under way at `now`: it has
/// begun and has not ended.
pub open spec fn in_progress(begins: Instant, ends: Instant, now: Instant) -> bool {
    !now.before(begins) && now.before(ends)
}

/// What a reader is told at `now` of an event from `begins` to `ends`, given
/// the breakpoints and the offset of the clock that the beginning is read
/// on: `Now` while the event is under way; else the label of the bucket that
/// the beginning falls in.
pub open spec fn humanized_with(
    begins: Instant,
    ends: Instant,
    now: Instant,
    thresholds: Option<Thresholds>,
    offset: int,
) -> Moment {
    if in_progress(begins, ends, now) {
        Moment::Now
    } else {
        Moment::Later(label_text(begins, offset, bucket_of(begins, thresholds)))
    }
}

/// What a reader is told at `now` of an event from `begins` to `ends`, all
/// of it read on the clock of `now`.
pub open spec fn humanized(begins: Instant, ends: Instant, now: LocalInstant) -> Moment {
    humanized_with(begins, ends, now.instant, thresholds_at(now), now.offset)
}

impl Bucket {
    /// The bucket of a beginning among the breakpoints.
    pub fn of(begins: &DateTime, breakpoints: &Option<Breakpoints>) -> (bucket: Bucket)
        ensures
            bucket == bucket_of(
                begins@,
                match *breakpoints {
                    Some(b) => Some(b@),
                    None => None,
                },
            ),
    {
        match breakpoints {
            None => Bucket::Unplaced,
            Some(b) => if begins.is_before(&b.midnight) {
                Bucket::BeforeMidnight
            } else if begins.is_before(&b.next_week) {
                Bucket::WithinWeek
            } else if begins.is_before(&b.next_month) {
                Bucket::WithinMonth
            } else if begins.is_before(&b.next_year) {
                Bucket::WithinYear
            } else {
                Bucket::Beyond
            },
        }
    }

    /// The `strftime` pattern of the bucket's label, if it has one.
    pub fn pattern(&self) -> (pattern: Option<&'static str>)
        ensures
            match pattern {
                Some(p) => label_pattern(*self) == Some(p@),
                None => label_pattern(*self) is None,
            },
    {
        match self {
            Bucket::BeforeMidnight => Some("%H:%M"),
            Bucket::WithinWeek => Some("%A"),
            Bucket::WithinMonth => Some("%A %e"),
            Bucket::WithinYear => Some("%B %e"),
            Bucket::Beyond => Some("%B %e %Y"),
            Bucket::Unplaced => None,
        }
    }
}

impl Event {
    /// Whether the event is under way at `now`.
    pub fn is_in_progress(&self, now: &DateTime) -> (under_way: bool)
        ensures
            under_way == in_progress(self.begins_on@, self.ends_on@, now@),
    {
        !now.is_before(&self.begins_on) && now.is_before(&self.ends_on)
    }

    /// The label of the event's beginning in a bucket, on the clock of `now`.
    pub fn label(&self, now: &LocalDateTime, bucket: Bucket) -> (label: String)
        ensures
            label@ == label_text(self.begins_on@, now@.offset, bucket),
    {
        self.label_at_offset(now.offset(), bucket)
    }

    /// The label of the event's beginning in a bucket, on a clock `offset`
    /// seconds east of UTC.
    pub fn label_at_offset(&self, offset: i32, bucket: Bucket) -> (label: String)
        requires
            valid_offset(offset as int),
        ensures
            label@ == label_text(self.begins_on@, offset as int, bucket),
    {
        let secs: i64 = self.begins_on.timestamp();
        let nanos: u32 = self.begins_on.timestamp_subsec_nanos();
        match bucket.pattern() {
            Some(pattern) => write_with(secs, nanos, offset, pattern),
            None => write_plain(secs, nanos, offset),
        }
    }

    /// What a reader is told at `now` of the event's beginning, given the
    /// breakpoints and the offset of the clock that the beginning is read on:
    /// `Now` while the event is under way, whatever its bucket; else the
    /// label of the bucket that the beginning falls in.
    pub fn humanize_with(
        &self,
        now: &DateTime,
        breakpoints: &Option<Breakpoints>,
        begins_offset: i32,
    ) -> (told: HumanReadableDateTime)
        requires
            valid_offset(begins_offset as int),
        ensures
            told@ == humanized_with(
                self.begins_on@,
                self.ends_on@,
                now@,
                match *breakpoints {
                    Some(b) => Some(b@),
                    None => None,
                },
                begins_offset as int,
            ),
    {
        if self.is_in_progress(now) {
            HumanReadableDateTime::Now
        } else {
            let bucket: Bucket = Bucket::of(&self.begins_on, breakpoints);
            HumanReadableDateTime::Later(self.label_at_offset(begins_offset, bucket))
        }
    }

    /// What a reader is told at `now` of the event's beginning, all of it
    /// read on the clock of `now`: the breakpoints follow the start of the
    /// day on that clock, and the label is written on it.
    pub fn humanize_at(&self, now: &LocalDateTime) -> (told: HumanReadableDateTime)
        ensures
            told@ == humanized(self.begins_on@, self.ends_on@, now@),
    {
        let breakpoints: Option<Breakpoints> = Breakpoints::new(now);
        self.humanize_with(&now.instant(), &breakpoints, now.offset())
    }

    /// What a reader is told of the event's beginning.
    ///
    /// With a clock, the time is what `get_now` gives, and all is read on
    /// the clock of that reading, as `humanize_at` does. Without one, the
    /// time is that of the machine's clock and all is read in the machine's
    /// zone, with the changes of offset that the zone goes through: the
    /// breakpoints are those of `Breakpoints::in_local_zone`, and the label
    /// is written at the offset that the zone has at the event's beginning.
    pub fn compute_human_readable_begining<F: Fn() -> LocalDateTime>(
        &self,
        get_now: Option<&F>,
    ) -> (told: HumanReadableDateTime)
        requires
            get_now matches Some(clock) ==> call_requires(*clock, ()),
        ensures
            get_now matches Some(clock) ==> exists|now: LocalDateTime| #[trigger]
                call_ensures(*clock, (), now) && told@ == humanized(
                    self.begins_on@,
                    self.ends_on@,
                    now@,
                ),
            get_now is None ==> exists|now: Instant, thresholds: Option<Thresholds>, offset: int|
                now.is_valid() && valid_offset(offset) && told@ == #[trigger] humanized_with(
                    self.begins_on@,
                    self.ends_on@,
                    now,
                    thresholds,
                    offset,
                ),
    {
        match get_now {
            Some(clock) => {
                let now: LocalDateTime = clock();
                self.humanize_at(&now)
            },
            None => {
                let now: LocalDateTime = Self::get_now();
                let breakpoints: Option<Breakpoints> = Breakpoints::in_local_zone(&now);
                let offset: i32 = self.begins_on.local_offset();
                let instant: DateTime = now.instant();
                let told: HumanReadableDateTime = self.humanize_with(
                    &instant,
                    &breakpoints,
                    offset,
                );
                proof {
                    let thresholds: Option<Thresholds> = match breakpoints {
                        Some(b) => Some(b@),
                        None => None,
                    };
                    assert(instant@.is_valid());
                    assert(told@ == humanized_with(
                        self.begins_on@,
                        self.ends_on@,
                        instant@,
                        thresholds,
                        offset as int,
                    ));
                }
                told
            },
        }
    }

    /// The time of the local clock with the offset of the local zone at that
    /// time, moved to the nearest valid reading where it is not one.
    pub fn get_now() -> (now: LocalDateTime)
        ensures
            now@.is_valid(),
    {
        let (secs, nanos, offset): (i64, u32, i32) = read_clock();
        LocalDateTime::saturating_new(secs, nanos, offset)
    }
}

/// An event lasts a whole day or more exactly when it lasts 24 whole hours
/// or more, and exactly when its end is a day's nanoseconds or more after its
/// beginning.
pub proof fn law_long_is_a_day_of_hours(span: int)
    ensures
        whole_units(span, NANOS_PER_DAY as int) >= 1 <==> span >= NANOS_PER_DAY,
        whole_units(span, NANOS_PER_DAY as int) >= 1 <==> whole_units(span, NANOS_PER_HOUR as int)
            >= 24,
{
}

/// On the clock of a reading, the first breakpoint lies one day of 86 400
/// seconds after the start of the day, and the second six such days after
/// the first.
pub proof fn law_a_week_follows_a_day(now: LocalInstant, thresholds: Thresholds)
    requires
        thresholds_at(now) == Some(thresholds),
    ensures
        day_start(now) matches Some(base) && thresholds.midnight == (Instant {
            secs: base.secs + 86_400,
            nanos: base.nanos,
        }),
        thresholds.next_week == (Instant {
            secs: thresholds.midnight.secs + 6 * 86_400,
            nanos: thresholds.midnight.nanos,
        }),
        thresholds.midnight.before(thresholds.next_week),
{
}

/// Among four breakpoints every beginning has its bucket: the five ranges
/// leave no instant out.
pub proof fn law_breakpoints_place_every_beginning(begins: Instant, thresholds: Thresholds)
    ensures
        bucket_of(begins, Some(thresholds)) != Bucket::Unplaced,
{
}

/// An event that has begun and has not ended is told as `Now`, whatever
/// bucket its beginning falls in.
pub proof fn law_under_way_is_now(begins: Instant, ends: Instant, now: LocalInstant)
    requires
        begins.nanos_since_epoch() <= now.instant.nanos_since_epoch() < ends.nanos_since_epoch(),
    ensures
        humanized(begins, ends, now) == Moment::Now,
{
}

/// An event that is not under way and begins before the first breakpoint is
/// told by the hour and minute of its beginning on the clock of `now`: two
/// digits from 00 to 23, a colon, two digits from 00 to 59.
pub proof fn law_before_midnight_is_told_by_the_hour(
    begins: Instant,
    ends: Instant,
    now: LocalInstant,
    thresholds: Thresholds,
)
    requires
        thresholds_at(now) == Some(thresholds),
        begins.before(thresholds.midnight),
        !in_progress(begins, ends, now.instant),
    ensures
        humanized(begins, ends, now) == Moment::Later(hour_and_minute(begins.secs, now.offset)),
        exists|hour: int, minute: int|
            0 <= hour < 24 && 0 <= minute < 60 && hour_and_minute(begins.secs, now.offset)
                == #[trigger] two_digits(hour) + seq![':'] + #[trigger] two_digits(minute),
{
    let second = second_of_day(begins.secs, now.offset);
    assert(hour_and_minute(begins.secs, now.offset) == two_digits(second / 3_600) + seq![':']
        + two_digits(second % 3_600 / 60));
}

/// The five label patterns are five different texts.
pub proof fn lemma_label_patterns_differ()
    ensures
        "%H:%M"@ != "%A"@,
        "%H:%M"@ != "%A %e"@,
        "%H:%M"@ != "%B %e"@,
        "%H:%M"@ != "%B %e %Y"@,
        "%A"@ != "%A %e"@,
        "%A"@ != "%B %e"@,
        "%A"@ != "%B %e %Y"@,
        "%A %e"@ != "%B %e"@,
        "%A %e"@ != "%B %e %Y"@,
        "%B %e"@ != "%B %e %Y"@,
{
    reveal_strlit("%H:%M");
    reveal_strlit("%A");
    reveal_strlit("%A %e");
    reveal_strlit("%B %e");
    reveal_strlit("%B %e %Y");
    assert("%H:%M"@[1] == 'H');
    assert("%A %e"@[1] == 'A');
    assert("%B %e"@[1] == 'B');
    assert("%A"@.len() == 2);
    assert("%A %e"@.len() == 5);
    assert("%B %e"@.len() == 5);
    assert("%H:%M"@.len() == 5);
    assert("%B %e %Y"@.len() == 8);
}

/// An event that is not under way and begins in `[midnight, next_week)` is
/// told by the name of the weekday of its beginning on the clock of `now`.
pub proof fn law_within_week_is_told_by_weekday(
    begins: Instant,
    ends: Instant,
    now: LocalInstant,
    thresholds: Thresholds,
)
    requires
        thresholds_at(now) == Some(thresholds),
        !begins.before(thresholds.midnight),
        begins.before(thresholds.next_week),
        !in_progress(begins, ends, now.instant),
    ensures
        humanized(begins, ends, now) == Moment::Later(weekday_name(begins.secs, now.offset)),
{
    lemma_label_patterns_differ();
}

/// An event that is not under way and begins in `[next_week, next_month)` is
/// told by the name of the weekday and the day of the month of its beginning.
pub proof fn law_within_month_is_told_by_weekday_and_day(
    begins: Instant,
    ends: Instant,
    now: LocalInstant,
    thresholds: Thresholds,
)
    requires
        thresholds_at(now) == Some(thresholds),
        !begins.before(thresholds.midnight),
        !begins.before(thresholds.next_week),
        begins.before(thresholds.next_month),
        !in_progress(begins, ends, now.instant),
    ensures
        humanized(begins, ends, now) == Moment::Later(
            weekday_name(begins.secs, now.offset) + seq![' '] + padded_day(
                civil_day(begins.secs, begins.nanos, now.offset),
            ),
        ),
{
    lemma_label_patterns_differ();
}

/// An event that is not under way and begins in `[next_month, next_year)` is
/// told by the name of the month and the day of the month of its beginning.
pub proof fn law_within_year_is_told_by_month_and_day(
    begins: Instant,
    ends: Instant,
    now: LocalInstant,
    thresholds: Thresholds,
)
    requires
        thresholds_at(now) == Some(thresholds),
        !begins.before(thresholds.midnight),
        !begins.before(thresholds.next_week),
        !begins.before(thresholds.next_month),
        begins.before(thresholds.next_year),
        !in_progress(begins, ends, now.instant),
    ensures
        humanized(begins, ends, now) == Moment::Later(
            month_name(civil_month(begins.secs, begins.nanos, now.offset)) + seq![' ']
                + padded_day(civil_day(begins.secs, begins.nanos, now.offset)),
        ),
{
    lemma_label_patterns_differ();
}

/// An event that is not under way and begins at `next_year` or later, and at
/// or after the other breakpoints, is told by month, day and the year of its
/// date, in four digits where that year lies from 0 to 9999.
pub proof fn law_beyond_is_told_with_the_year(
    begins: Instant,
    ends: Instant,
    now: LocalInstant,
    thresholds: Thresholds,
)
    requires
        thresholds_at(now) == Some(thresholds),
        !begins.before(thresholds.midnight),
        !begins.before(thresholds.next_week),
        !begins.before(thresholds.next_month),
        !begins.before(thresholds.next_year),
        !in_progress(begins, ends, now.instant),
        0 <= civil_year(begins.secs, begins.nanos, now.offset) <= 9999,
    ensures
        humanized(begins, ends, now) == Moment::Later(
            month_name(civil_month(begins.secs, begins.nanos, now.offset)) + seq![' ']
                + padded_day(civil_day(begins.secs, begins.nanos, now.offset)) + seq![' ']
                + four_digits(civil_year(begins.secs, begins.nanos, now.offset)),
        ),
{
    lemma_label_patterns_differ();
}

/// Without breakpoints, an event that is not under way is told by its
/// beginning written plainly on the clock of `now`.
pub proof fn law_without_breakpoints_is_told_plainly(
    begins: Instant,
    ends: Instant,
    now: LocalInstant,
)
    requires
        thresholds_at(now) is None,
        !in_progress(begins, ends, now.instant),
    ensures
        humanized(begins, ends, now) == Moment::Later(
            display_text(begins.secs, begins.nanos, now.offset),
        ),
{
}

} // verus!
