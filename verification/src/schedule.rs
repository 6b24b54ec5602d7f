//! Wall-clock instants and the resolution of a time of day to the next
//! moment at which it occurs.

use vstd::prelude::*;

verus! {

/// A wall-clock reading: a day number, the time within that day, and the
/// offset of the zone from UTC in which both are expressed.
#[derive(Clone, Copy, Debug, PartialEq, Eq, Structural)]
pub struct LocalInstant {
    /// Day number in the proleptic Gregorian calendar (day 1 is 0001-01-01).
    pub day: i32,
    /// Seconds since local midnight.
    pub second_of_day: u32,
    /// Nanoseconds within the second.
    pub nanosecond: u32,
    /// Seconds that local time is ahead of UTC.
    pub utc_offset: i32,
}

/// Why a requested time of day was turned down.
#[derive(Clone, Copy, Debug, PartialEq, Eq, Structural)]
pub enum ScheduleError {
    /// The answer was not a number.
    NotANumber,
    /// The hour was above 23.
    HourOutOfRange,
    /// The minute was above 59.
    MinuteOutOfRange,
}

/// The moment at which shutdown begins.
#[derive(Clone, Copy, Debug, PartialEq, Eq, Structural)]
pub struct Schedule {
    pub at: LocalInstant,
}

/// The instant `hour:minute:00.000` on the day of `now`, in the zone of `now`.
pub open spec fn same_day_at(hour: u32, minute: u32, now: LocalInstant) -> LocalInstant {
    LocalInstant {
        day: now.day,
        second_of_day: (hour * 3600 + minute * 60) as u32,
        nanosecond: 0,
        utc_offset: now.utc_offset,
    }
}

/// The next occurrence of `hour:minute` strictly after `now`.
pub open spec fn next_occurrence(hour: u32, minute: u32, now: LocalInstant) -> LocalInstant {
    let today = same_day_at(hour, minute, now);
    if today.nanos_since_origin() > now.nanos_since_origin() {
        today
    } else {
        today.next_day()
    }
}

/// The text that chrono's `Display` gives for the date and time with the
/// day number `day`, `second_of_day` seconds and `nanosecond` nanoseconds
/// after midnight, in a zone `utc_offset` seconds east of UTC: date, time and
/// offset. `None` where chrono has no such date, time or offset.
pub uninterp spec fn rendered_instant(
    day: int,
    second_of_day: int,
    nanosecond: int,
    utc_offset: int,
) -> Option<Seq<char>>;

/// Builds a `chrono::DateTime<FixedOffset>` from the four numbers with
/// `NaiveDate::from_num_days_from_ce_opt`,
/// `NaiveTime::from_num_seconds_from_midnight_opt`, `FixedOffset::east_opt` and
/// `NaiveDateTime::and_local_timezone`, and formats it with its `Display`.
/// The contract only gives the result its name.
#[verifier::external_body]
fn render(day: i32, second_of_day: u32, nanosecond: u32, utc_offset: i32) -> (r: Option<String>)
    ensures
        r.is_some() == rendered_instant(
            day as int,
            second_of_day as int,
            nanosecond as int,
            utc_offset as int,
        ).is_some(),
        r matches Some(s) ==> rendered_instant(
            day as int,
            second_of_day as int,
            nanosecond as int,
            utc_offset as int,
        ) == Some(s@),
{
    let date = chrono::NaiveDate::from_num_days_from_ce_opt(day)?;
    let time = chrono::NaiveTime::from_num_seconds_from_midnight_opt(second_of_day, nanosecond)?;
    let zone = chrono::FixedOffset::east_opt(utc_offset)?;
    let at = chrono::NaiveDateTime::new(date, time).and_local_timezone(zone).single()?;
    Some(at.to_string())
}

impl LocalInstant {
    /// The time of day is a real one, and the offset is less than a day.
    pub open spec fn well_formed(self) -> bool {
        &&& self.second_of_day < 86_400
        &&& self.nanosecond < 1_000_000_000
        &&& -86_400 < self.utc_offset < 86_400
    }

    /// Nanoseconds between the calendar's origin, taken in UTC, and this instant.
    pub open spec fn nanos_since_origin(self) -> int {
        (self.day as int * 86_400 + self.second_of_day as int - self.utc_offset as int)
            * 1_000_000_000 + self.nanosecond as int
    }

    pub open spec fn hour_spec(self) -> int {
        self.second_of_day as int / 3600
    }

    pub open spec fn minute_spec(self) -> int {
        (self.second_of_day as int / 60) % 60
    }

    pub open spec fn second_spec(self) -> int {
        self.second_of_day as int % 60
    }

    /// The same time of day, one calendar day later.
    pub open spec fn next_day(self) -> LocalInstant {
        LocalInstant { day: (self.day + 1) as i32, ..self }
    }

    /// Builds an instant from calendar-clock components; `None` when a
    /// component is outside its range.
    pub fn new(day: i32, hour: u32, minute: u32, second: u32, nanosecond: u32, utc_offset: i32) -> (r: Option<LocalInstant>)
        ensures
            r.is_some() <==> (hour <= 23 && minute <= 59 && second <= 59
                && nanosecond < 1_000_000_000 && -86_400 < utc_offset < 86_400),
            r matches Some(t) ==> t.well_formed() && t.day == day
                && t.second_of_day == hour * 3600 + minute * 60 + second
                && t.nanosecond == nanosecond && t.utc_offset == utc_offset
                && t.hour_spec() == hour && t.minute_spec() == minute && t.second_spec() == second,
    {
        if hour > 23 || minute > 59 || second > 59 || nanosecond >= 1_000_000_000
            || utc_offset <= -86_400 || utc_offset >= 86_400 {
            return None;
        }
        let second_of_day: u32 = hour * 3600 + minute * 60 + second;
        Some(LocalInstant { day, second_of_day, nanosecond, utc_offset })
    }

    pub fn hour(&self) -> (r: u32)
        ensures
            r == self.hour_spec(),
    {
        self.second_of_day / 3600
    }

    pub fn minute(&self) -> (r: u32)
        ensures
            r == self.minute_spec(),
    {
        (self.second_of_day / 60) % 60
    }

    pub fn second(&self) -> (r: u32)
        ensures
            r == self.second_spec(),
    {
        self.second_of_day % 60
    }

    /// Nanoseconds from `self` until `later`; negative when `later` is in the past.
    pub fn nanos_until(&self, later: &LocalInstant) -> (r: i128)
        requires
            self.well_formed(),
            later.well_formed(),
        ensures
            r == later.nanos_since_origin() - self.nanos_since_origin(),
    {
        let days: i128 = later.day as i128 - self.day as i128;
        let seconds: i128 = days * 86_400 + (later.second_of_day as i128 - self.second_of_day as i128)
            - (later.utc_offset as i128 - self.utc_offset as i128);
        seconds * 1_000_000_000 + (later.nanosecond as i128 - self.nanosecond as i128)
    }

    /// The instant's text as the calendar renders it.
    pub open spec fn text_spec(self) -> Option<Seq<char>> {
        rendered_instant(
            self.day as int,
            self.second_of_day as int,
            self.nanosecond as int,
            self.utc_offset as int,
        )
    }

    /// Renders the instant for people: date, time of day and offset from
    /// UTC. `None` where the calendar has no such instant.
    pub fn text(&self) -> (r: Option<String>)
        ensures
            r.is_some() == self.text_spec().is_some(),
            r matches Some(s) ==> self.text_spec() == Some(s@),
    {
        render(self.day, self.second_of_day, self.nanosecond, self.utc_offset)
    }
}

impl Schedule {
    /// The schedule falls on a whole minute.
    pub open spec fn well_formed(self) -> bool {
        &&& self.at.well_formed()
        &&& self.at.second_spec() == 0
        &&& self.at.nanosecond == 0
    }

    /// Nanoseconds left at `now` before the scheduled moment; zero or less once it has come.
    pub open spec fn remaining_at(self, now: LocalInstant) -> int {
        self.at.nanos_since_origin() - now.nanos_since_origin()
    }

    pub fn remaining(&self, now: &LocalInstant) -> (r: i128)
        requires
            self.well_formed(),
            now.well_formed(),
        ensures
            r == self.remaining_at(*now),
    {
        now.nanos_until(&self.at)
    }
}

/// Accepts an hour of the day, 0 to 23.
pub fn check_hour(hour: u32) -> (r: Result<u32, ScheduleError>)
    ensures
        hour <= 23 ==> r == Ok::<u32, ScheduleError>(hour),
        hour > 23 ==> r == Err::<u32, ScheduleError>(ScheduleError::HourOutOfRange),
{
    if hour > 23 {
        Err(ScheduleError::HourOutOfRange)
    } else {
        Ok(hour)
    }
}

/// Accepts a minute of the hour, 0 to 59.
pub fn check_minute(minute: u32) -> (r: Result<u32, ScheduleError>)
    ensures
        minute <= 59 ==> r == Ok::<u32, ScheduleError>(minute),
        minute > 59 ==> r == Err::<u32, ScheduleError>(ScheduleError::MinuteOutOfRange),
{
    if minute > 59 {
        Err(ScheduleError::MinuteOutOfRange)
    } else {
        Ok(minute)
    }
}

/// Turns a requested time of day into the next moment at which the clock
/// shows it: today if that is still ahead of `now`, tomorrow otherwise.
/// The hour is judged before the minute.
pub fn resolve(hour: u32, minute: u32, now: LocalInstant) -> (r: Result<Schedule, ScheduleError>)
    requires
        now.well_formed(),
        now.day < i32::MAX,
    ensures
        hour > 23 ==> r == Err::<Schedule, ScheduleError>(ScheduleError::HourOutOfRange),
        hour <= 23 && minute > 59 ==> r == Err::<Schedule, ScheduleError>(
            ScheduleError::MinuteOutOfRange,
        ),
        hour <= 23 && minute <= 59 ==> r == Ok::<Schedule, ScheduleError>(
            Schedule { at: next_occurrence(hour, minute, now) },
        ),
        r matches Ok(s) ==> {
            &&& s.well_formed()
            &&& s.at.nanos_since_origin() > now.nanos_since_origin()
            &&& s.at.hour_spec() == hour
            &&& s.at.minute_spec() == minute
            &&& s.at.second_spec() == 0
            &&& s.at.nanosecond == 0
            &&& s.at.utc_offset == now.utc_offset
            &&& (s.at == same_day_at(hour, minute, now) || s.at == same_day_at(
                hour,
                minute,
                now,
            ).next_day())
            &&& (s.at.day == now.day || s.at.day == now.day + 1)
        },
{
    if hour > 23 {
        return Err(ScheduleError::HourOutOfRange);
    }
    if minute > 59 {
        return Err(ScheduleError::MinuteOutOfRange);
    }
    let second_of_day: u32 = hour * 3600 + minute * 60;
    let today = LocalInstant {
        day: now.day,
        second_of_day,
        nanosecond: 0,
        utc_offset: now.utc_offset,
    };
    let ahead = second_of_day > now.second_of_day;
    if ahead {
        Ok(Schedule { at: today })
    } else {
        Ok(Schedule { at: LocalInstant { day: now.day + 1, ..today } })
    }
}

} // verus!
