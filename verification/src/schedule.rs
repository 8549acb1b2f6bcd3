//! The schedule dialog: six text fields and a zone name, and the instant
//! they resolve to.
//!
//! A schedule resolves only if every field is a number, the date and the
//! time exist, the zone is known, and the wall-clock time occurs in that
//! zone. A time that occurs twice, where clocks are set back, resolves to
//! the earlier instant; a time that is skipped, where clocks are set
//! forward, resolves to nothing.

use vstd::prelude::*;
use vstd::string::*;
use chrono::{Datelike, TimeZone, Timelike};
use crate::enums::ScheduleField;
use crate::text::{
    contains, copy_texts, has_substring, lowercase_of, parse_i32, parse_u32, parsed_i32,
    parsed_u32, texts, trim, trim_end_of, trim_start_of, trimmed, utf8_len, zero_pad, zero_padded,
};

verus! {

// ---------------------------------------------------------------------
// The calendar and the zones
// ---------------------------------------------------------------------

/// The first year that has dates.
pub const MIN_YEAR: i32 = -262143;

/// The last year that has dates.
pub const MAX_YEAR: i32 = 262142;

/// Whether a year of the proleptic Gregorian calendar has a 29th of
/// February.
pub open spec fn is_leap_year(year: int) -> bool {
    year % 4 == 0 && (year % 100 != 0 || year % 400 == 0)
}

/// The number of days of a month, 0 for a month that does not exist.
pub open spec fn days_in_month(year: int, month: int) -> int {
    if month == 2 {
        if is_leap_year(year) {
            29
        } else {
            28
        }
    } else if month == 4 || month == 6 || month == 9 || month == 11 {
        30
    } else if 1 <= month <= 12 {
        31
    } else {
        0
    }
}

/// Whether the calendar has this date.
pub open spec fn date_exists(year: i32, month: u32, day: u32) -> bool {
    &&& MIN_YEAR <= year <= MAX_YEAR
    &&& 1 <= month <= 12
    &&& 1 <= day <= days_in_month(year as int, month as int)
}

/// Whether a day has this time.
pub open spec fn time_exists(hour: u32, minute: u32, second: u32) -> bool {
    hour < 24 && minute < 60 && second < 60
}

/// The instants, in seconds since the Unix epoch, at which the clocks of
/// a zone show a given time.
#[derive(Debug, Clone, Copy, PartialEq, Eq, Structural)]
pub enum LocalInstants {
    /// Never: the clocks skip this time.
    Skipped,
    /// Once.
    Single(i64),
    /// Twice: the clocks show this time, are set back, and show it again.
    Ambiguous(i64, i64),
}

/// Whether `name` names a zone of the time zone database.
pub uninterp spec fn zone_known(name: Seq<char>) -> bool;

/// The instants at which the clocks of `zone` show the given date and
/// time.
pub uninterp spec fn local_instants(
    zone: Seq<char>,
    year: i32,
    month: u32,
    day: u32,
    hour: u32,
    minute: u32,
    second: u32,
) -> LocalInstants;

/// Tells whether the calendar has this date.
pub fn is_calendar_date(year: i32, month: u32, day: u32) -> (ok: bool)
    ensures
        ok == date_exists(year, month, day),
{
    if year < MIN_YEAR || year > MAX_YEAR || month < 1 || month > 12 || day < 1 {
        return false;
    }
    // 262400 years are a whole number of cycles of 400, and make every year
    // of the calendar positive
    let shifted: u32 = (year + 262400) as u32;
    assert((shifted as int) % 4 == (year as int) % 4);
    assert((shifted as int) % 100 == (year as int) % 100);
    assert((shifted as int) % 400 == (year as int) % 400);
    let leap = shifted % 4 == 0 && (shifted % 100 != 0 || shifted % 400 == 0);
    let last: u32 = if month == 2 {
        if leap {
            29
        } else {
            28
        }
    } else if month == 4 || month == 6 || month == 9 || month == 11 {
        30
    } else {
        31
    };
    day <= last
}

/// Tells whether a day has this time.
pub fn is_clock_time(hour: u32, minute: u32, second: u32) -> (ok: bool)
    ensures
        ok == time_exists(hour, minute, second),
{
    hour < 24 && minute < 60 && second < 60
}

/// Parses `name` as a `chrono_tz::Tz` and says whether that succeeded.
/// Not proved: that the answer is a function of the name.
#[verifier::external_body]
fn is_known_zone(name: &str) -> (known: bool)
    ensures
        known == zone_known(name@),
{
    name.parse::<chrono_tz::Tz>().is_ok()
}

/// `from_local_datetime` of the zone `zone` on the given date and time,
/// each instant as a Unix timestamp. The date is made by
/// `NaiveDate::from_ymd_opt` and the time by `and_hms_opt`. Not proved:
/// that the outcome is a function of the arguments, and that the crate
/// has every date and time that [`date_exists`] and [`time_exists`]
/// admit, and parses every name that [`zone_known`] admits.
#[verifier::external_body]
fn map_local_time(
    zone: &str,
    year: i32,
    month: u32,
    day: u32,
    hour: u32,
    minute: u32,
    second: u32,
) -> (found: LocalInstants)
    requires
        zone_known(zone@),
        date_exists(year, month, day),
        time_exists(hour, minute, second),
    ensures
        found == local_instants(zone@, year, month, day, hour, minute, second),
{
    let tz: chrono_tz::Tz = zone.parse().unwrap();
    let date = chrono::NaiveDate::from_ymd_opt(year, month, day).unwrap();
    let local = date.and_hms_opt(hour, minute, second).unwrap();
    match tz.from_local_datetime(&local) {
        chrono::LocalResult::Single(at) => LocalInstants::Single(at.timestamp()),
        chrono::LocalResult::Ambiguous(first, second) => {
            LocalInstants::Ambiguous(first.timestamp(), second.timestamp())
        },
        chrono::LocalResult::None => LocalInstants::Skipped,
    }
}

/// Whether `names` are the zones of the time zone database: each of them
/// is known, each known one is among them, none stands twice, and there
/// is at least one.
pub open spec fn are_all_zones(names: Seq<Seq<char>>) -> bool {
    &&& names.len() > 0
    &&& names.no_duplicates()
    &&& forall|i: int| 0 <= i < names.len() ==> zone_known(#[trigger] names[i])
    &&& forall|name: Seq<char>| #[trigger] zone_known(name) ==> names.contains(name)
}

/// The names of all zones, as `chrono_tz::TZ_VARIANTS` lists them. The
/// crate parses a name by looking it up, letter for letter, in a table
/// that has one entry for each zone of the list. Not proved: that the
/// names of the list are the ones that parse as a zone, each once.
#[verifier::external_body]
fn zone_names() -> (names: Vec<String>)
    ensures
        are_all_zones(texts(names@)),
{
    chrono_tz::TZ_VARIANTS.iter().map(|zone| zone.name().to_string()).collect()
}

// ---------------------------------------------------------------------
// Resolving
// ---------------------------------------------------------------------

/// An instant in seconds since the Unix epoch, UTC.
#[derive(Debug, Clone, Copy, PartialEq, Eq, Structural)]
pub struct ResolvedSchedule {
    pub timestamp: i64,
}

/// The instant that is chosen among those found: the only one, or the
/// earlier of two.
pub open spec fn chosen_instant(found: LocalInstants) -> Option<ResolvedSchedule> {
    match found {
        LocalInstants::Skipped => None,
        LocalInstants::Single(at) => Some(ResolvedSchedule { timestamp: at }),
        LocalInstants::Ambiguous(first, second) => Some(
            ResolvedSchedule {
                timestamp: if first <= second {
                    first
                } else {
                    second
                },
            },
        ),
    }
}

/// The instant that seven texts resolve to.
pub open spec fn resolved(
    day: Seq<char>,
    month: Seq<char>,
    year: Seq<char>,
    hour: Seq<char>,
    minute: Seq<char>,
    second: Seq<char>,
    zone: Seq<char>,
) -> Option<ResolvedSchedule> {
    if parsed_u32(day) is Some && parsed_u32(month) is Some && parsed_i32(year) is Some
        && parsed_u32(hour) is Some && parsed_u32(minute) is Some && parsed_u32(second) is Some
        && date_exists(parsed_i32(year)->0, parsed_u32(month)->0, parsed_u32(day)->0)
        && time_exists(parsed_u32(hour)->0, parsed_u32(minute)->0, parsed_u32(second)->0)
        && zone_known(zone) {
        chosen_instant(
            local_instants(
                zone,
                parsed_i32(year)->0,
                parsed_u32(month)->0,
                parsed_u32(day)->0,
                parsed_u32(hour)->0,
                parsed_u32(minute)->0,
                parsed_u32(second)->0,
            ),
        )
    } else {
        None
    }
}

/// The number that a text denotes, and 0 where it denotes none.
pub open spec fn lenient_u32(text: Seq<char>) -> u32 {
    match parsed_u32(text) {
        Some(value) => value,
        None => 0,
    }
}

/// The number that a text denotes, and 0 where it denotes none.
pub open spec fn lenient_i32(text: Seq<char>) -> i32 {
    match parsed_i32(text) {
        Some(value) => value,
        None => 0,
    }
}

/// Chooses among the instants found for a wall-clock time: none for a
/// time that the clocks skip, the earlier one for a time that they show
/// twice.
pub fn choose_instant(found: LocalInstants) -> (chosen: Option<ResolvedSchedule>)
    ensures
        chosen == chosen_instant(found),
        found is Skipped ==> chosen is None,
        found matches LocalInstants::Ambiguous(first, second) ==> chosen is Some
            && chosen->0.timestamp <= first && chosen->0.timestamp <= second && (
        chosen->0.timestamp == first || chosen->0.timestamp == second),
{
    match found {
        LocalInstants::Skipped => None,
        LocalInstants::Single(at) => Some(ResolvedSchedule { timestamp: at }),
        LocalInstants::Ambiguous(first, second) => {
            if first <= second {
                Some(ResolvedSchedule { timestamp: first })
            } else {
                Some(ResolvedSchedule { timestamp: second })
            }
        },
    }
}

/// Resolves numbers and a zone name to an instant.
pub fn resolve_fields(
    year: i32,
    month: u32,
    day: u32,
    hour: u32,
    minute: u32,
    second: u32,
    zone: &str,
) -> (instant: Option<ResolvedSchedule>)
    ensures
        instant == if date_exists(year, month, day) && time_exists(hour, minute, second)
            && zone_known(zone@) {
            chosen_instant(local_instants(zone@, year, month, day, hour, minute, second))
        } else {
            None
        },
{
    if !is_calendar_date(year, month, day) {
        return None;
    }
    if !is_clock_time(hour, minute, second) {
        return None;
    }
    if !is_known_zone(zone) {
        return None;
    }
    choose_instant(map_local_time(zone, year, month, day, hour, minute, second))
}

// ---------------------------------------------------------------------
// The dialog
// ---------------------------------------------------------------------

/// The state of the schedule dialog.
#[derive(Debug)]
pub struct ScheduleState {
    pub day: String,
    pub month: String,
    pub year: String,
    pub hour: String,
    pub minute: String,
    pub second: String,
    /// What has been typed into the zone field.
    pub timezone_input: String,
    /// Every zone that can be chosen.
    pub available_timezones: Vec<String>,
    /// The zones that match what has been typed.
    pub filtered_timezones: Vec<String>,
    pub selected_timezone_idx: usize,
    pub active_field: ScheduleField,
    pub is_open: bool,
}

/// The dialog as character sequences.
pub struct ScheduleView {
    pub day: Seq<char>,
    pub month: Seq<char>,
    pub year: Seq<char>,
    pub hour: Seq<char>,
    pub minute: Seq<char>,
    pub second: Seq<char>,
    pub timezone_input: Seq<char>,
    pub available_timezones: Seq<Seq<char>>,
    pub filtered_timezones: Seq<Seq<char>>,
    pub selected_timezone_idx: usize,
    pub active_field: ScheduleField,
    pub is_open: bool,
}

impl View for ScheduleState {
    type V = ScheduleView;

    open spec fn view(&self) -> ScheduleView {
        ScheduleView {
            day: self.day@,
            month: self.month@,
            year: self.year@,
            hour: self.hour@,
            minute: self.minute@,
            second: self.second@,
            timezone_input: self.timezone_input@,
            available_timezones: texts(self.available_timezones@),
            filtered_timezones: texts(self.filtered_timezones@),
            selected_timezone_idx: self.selected_timezone_idx,
            active_field: self.active_field,
            is_open: self.is_open,
        }
    }
}

/// What the zones are searched for: the input without the whitespace
/// around it, in lower case.
pub open spec fn zone_query(input: Seq<char>) -> Seq<char> {
    lowercase_of(trimmed(input))
}

/// The zones that are shown for an input: all of them where the input is
/// empty or all whitespace, and else those whose lower-case name holds
/// the query.
pub open spec fn shown_zones(zones: Seq<Seq<char>>, input: Seq<char>) -> Seq<Seq<char>> {
    if trimmed(input).len() == 0 {
        zones
    } else {
        matching_zones(zones, zone_query(input))
    }
}

/// Those of `zones` whose lower-case name holds `query`, in order.
pub open spec fn matching_zones(zones: Seq<Seq<char>>, query: Seq<char>) -> Seq<Seq<char>>
    decreases zones.len(),
{
    if zones.len() == 0 {
        Seq::empty()
    } else {
        let before = matching_zones(zones.drop_last(), query);
        if has_substring(lowercase_of(zones.last()), query) {
            before.push(zones.last())
        } else {
            before
        }
    }
}

/// What a clock and a calendar on the wall show at some instant.
#[derive(Debug, Clone, Copy, PartialEq, Eq, Structural)]
pub struct ClockReading {
    pub year: i32,
    pub month: u32,
    pub day: u32,
    pub hour: u32,
    pub minute: u32,
}

impl ClockReading {
    /// Whether a clock and a calendar can show this: a month from 1 to 12,
    /// a day from 1 to 31, an hour below 24 and a minute below 60.
    pub open spec fn is_on_the_dial(self) -> bool {
        1 <= self.month <= 12 && 1 <= self.day <= 31 && self.hour < 24 && self.minute < 60
    }
}

/// The first instant of the calendar: the beginning of the first year
/// that has dates, UTC.
pub const FIRST_INSTANT: i64 = -8334601228800;

/// The last instant of the calendar: the last second of the last year
/// that has dates, UTC.
pub const LAST_INSTANT: i64 = 8210266876799;

/// Whether an instant lies within the calendar.
pub open spec fn in_calendar(timestamp: i64) -> bool {
    FIRST_INSTANT <= timestamp <= LAST_INSTANT
}

/// `chrono::Utc::now().timestamp()`: the present instant as a Unix
/// timestamp. It is what the system's clock says, so it gets no name.
/// The crate counts the seconds that have passed since the epoch, stops
/// the program on a clock that is set before it, and makes an instant of
/// the calendar of them. Not proved: that what comes back is not negative
/// and lies within the calendar.
#[verifier::external_body]
fn now_timestamp() -> (now: i64)
    ensures
        0 <= now <= LAST_INSTANT,
{
    chrono::Utc::now().timestamp()
}

/// `chrono::Local.timestamp_opt(timestamp, 0)`: what the clocks of the
/// system's zone show at an instant, `None` for an instant beyond the
/// calendar. Which reading it is depends on the zone that the system is
/// set to, so the reading gets no name. Not proved: that there is a
/// reading for every instant of the calendar and for no other, and that
/// month, day, hour and minute lie in the ranges of `Datelike` and
/// `Timelike`.
#[verifier::external_body]
fn local_reading(timestamp: i64) -> (reading: Option<ClockReading>)
    ensures
        reading is Some <==> in_calendar(timestamp),
        reading matches Some(shown) ==> shown.is_on_the_dial(),
{
    chrono::Local.timestamp_opt(timestamp, 0).single().map(
        |at|
            ClockReading {
                year: at.year(),
                month: at.month(),
                day: at.day(),
                hour: at.hour(),
                minute: at.minute(),
            },
    )
}

/// A year in four digits. A year before 0 or after 9999 has its sign in
/// front.
pub open spec fn year_text_of(year: int) -> Seq<char> {
    if year < 0 {
        seq!['-'] + zero_padded((-year) as nat, 4)
    } else if year > 9999 {
        seq!['+'] + zero_padded(year as nat, 4)
    } else {
        zero_padded(year as nat, 4)
    }
}

/// Writes a year in four digits, with its sign where it has more or is
/// negative.
pub fn year_text(year: i32) -> (text: String)
    ensures
        text@ == year_text_of(year as int),
{
    if year < 0 {
        let digits = zero_pad((0 - (year as i64)) as u64, 4);
        let mut text = String::new();
        text.push('-');
        text.append(digits.as_str());
        assert(text@ =~= seq!['-'] + digits@);
        text
    } else if year > 9999 {
        let digits = zero_pad(year as u64, 4);
        let mut text = String::new();
        text.push('+');
        text.append(digits.as_str());
        assert(text@ =~= seq!['+'] + digits@);
        text
    } else {
        zero_pad(year as u64, 4)
    }
}

/// How far ahead of now the default time lies, in seconds: half an hour.
pub const DEFAULT_LEAD_SECONDS: i64 = 1800;

/// The instant whose time of day is the default for a schedule made at
/// `now`: half an hour later, and none where no such instant can be
/// written.
pub open spec fn default_lead_of(now: i64) -> Option<i64> {
    if now <= i64::MAX - DEFAULT_LEAD_SECONDS {
        Some((now + DEFAULT_LEAD_SECONDS) as i64)
    } else {
        None
    }
}

/// Finds the instant whose time of day is the default for a schedule made
/// at `now`.
pub fn default_lead(now: i64) -> (then: Option<i64>)
    ensures
        then == default_lead_of(now),
{
    now.checked_add(DEFAULT_LEAD_SECONDS)
}

/// The readings that a dialog's defaults are taken from: the present one
/// for the date and the later one for the time. Where the calendar ends
/// before the later instant, the present reading gives the time too; and
/// without a present reading there are no defaults.
pub open spec fn default_readings_of(
    today: Option<ClockReading>,
    later: Option<ClockReading>,
) -> Option<(ClockReading, ClockReading)> {
    match today {
        Some(today) => Some(
            (
                today,
                match later {
                    Some(later) => later,
                    None => today,
                },
            ),
        ),
        None => None,
    }
}

/// Puts together what the clock showed for a dialog's defaults.
pub fn default_readings(today: Option<ClockReading>, later: Option<ClockReading>) -> (readings:
    Option<(ClockReading, ClockReading)>)
    ensures
        readings == default_readings_of(today, later),
{
    match today {
        Some(today) => {
            let later = match later {
                Some(later) => later,
                None => today,
            };
            Some((today, later))
        },
        None => None,
    }
}

/// A text after a character was typed into a field that takes at most
/// `limit` bytes: longer by that character if it was shorter than the
/// limit, and unchanged if not.
pub open spec fn typed_into(text: Seq<char>, c: char, limit: nat) -> Seq<char> {
    if utf8_len(text) < limit {
        text.push(c)
    } else {
        text
    }
}

/// A text after its last character was erased, if it had one.
pub open spec fn erased_from(text: Seq<char>) -> Seq<char> {
    if text.len() > 0 {
        text.drop_last()
    } else {
        text
    }
}

impl ScheduleView {
    /// The dialog after the zones were filtered anew: all zones for an
    /// input that is empty or all whitespace, else the matching ones; the
    /// first of them selected.
    pub open spec fn refiltered(self) -> ScheduleView {
        ScheduleView {
            filtered_timezones: shown_zones(self.available_timezones, self.timezone_input),
            selected_timezone_idx: 0,
            ..self
        }
    }

    /// The dialog after `c` was typed into the active field.
    pub open spec fn typed(self, c: char) -> ScheduleView {
        match self.active_field {
            ScheduleField::Day => ScheduleView { day: typed_into(self.day, c, 2), ..self },
            ScheduleField::Month => ScheduleView { month: typed_into(self.month, c, 2), ..self },
            ScheduleField::Year => ScheduleView { year: typed_into(self.year, c, 4), ..self },
            ScheduleField::Hour => ScheduleView { hour: typed_into(self.hour, c, 2), ..self },
            ScheduleField::Minute => ScheduleView {
                minute: typed_into(self.minute, c, 2),
                ..self
            },
            ScheduleField::Second => ScheduleView {
                second: typed_into(self.second, c, 2),
                ..self
            },
            ScheduleField::Timezone => (ScheduleView {
                timezone_input: self.timezone_input.push(c),
                ..self
            }).refiltered(),
            ScheduleField::Submit => self,
        }
    }

    /// The dialog after the last character of the active field was erased.
    pub open spec fn erased(self) -> ScheduleView {
        match self.active_field {
            ScheduleField::Day => ScheduleView { day: erased_from(self.day), ..self },
            ScheduleField::Month => ScheduleView { month: erased_from(self.month), ..self },
            ScheduleField::Year => ScheduleView { year: erased_from(self.year), ..self },
            ScheduleField::Hour => ScheduleView { hour: erased_from(self.hour), ..self },
            ScheduleField::Minute => ScheduleView { minute: erased_from(self.minute), ..self },
            ScheduleField::Second => ScheduleView { second: erased_from(self.second), ..self },
            ScheduleField::Timezone => (ScheduleView {
                timezone_input: erased_from(self.timezone_input),
                ..self
            }).refiltered(),
            ScheduleField::Submit => self,
        }
    }

    /// The dialog after the active field was emptied.
    pub open spec fn cleared(self) -> ScheduleView {
        match self.active_field {
            ScheduleField::Day => ScheduleView { day: Seq::empty(), ..self },
            ScheduleField::Month => ScheduleView { month: Seq::empty(), ..self },
            ScheduleField::Year => ScheduleView { year: Seq::empty(), ..self },
            ScheduleField::Hour => ScheduleView { hour: Seq::empty(), ..self },
            ScheduleField::Minute => ScheduleView { minute: Seq::empty(), ..self },
            ScheduleField::Second => ScheduleView { second: Seq::empty(), ..self },
            ScheduleField::Timezone => (ScheduleView {
                timezone_input: Seq::empty(),
                ..self
            }).refiltered(),
            ScheduleField::Submit => self,
        }
    }

    /// Whether the dialog lacks a date: the day or the year is empty.
    pub open spec fn lacks_date(self) -> bool {
        self.day.len() == 0 || self.year.len() == 0
    }

    /// The dialog with its date taken from `today`, its hour and minute
    /// from `later`, and its seconds at zero.
    pub open spec fn with_defaults(self, today: ClockReading, later: ClockReading) -> ScheduleView {
        ScheduleView {
            day: zero_padded(today.day as nat, 2),
            month: zero_padded(today.month as nat, 2),
            year: year_text_of(today.year as int),
            hour: zero_padded(later.hour as nat, 2),
            minute: zero_padded(later.minute as nat, 2),
            second: "00"@,
            ..self
        }
    }

    /// The dialog opened, with the day field active.
    pub open spec fn opened(self) -> ScheduleView {
        ScheduleView { is_open: true, active_field: ScheduleField::Day, ..self }
    }

    /// Whether `self` is `before` opened anew: opened as it was if it had
    /// a date, and else opened with defaults from two readings that a
    /// clock can show.
    pub open spec fn is_reset_of(self, before: ScheduleView) -> bool {
        if before.lacks_date() {
            exists|today: ClockReading, later: ClockReading|
                today.is_on_the_dial() && later.is_on_the_dial() && self
                    == #[trigger] before.with_defaults(today, later).opened()
        } else {
            self == before.opened()
        }
    }

    /// The instant that the dialog is shown to aim at: what it resolves to
    /// when every field that is no number counts as 0.
    pub open spec fn preview(self) -> Option<ResolvedSchedule> {
        let year = lenient_i32(self.year);
        let month = lenient_u32(self.month);
        let day = lenient_u32(self.day);
        let hour = lenient_u32(self.hour);
        let minute = lenient_u32(self.minute);
        let second = lenient_u32(self.second);
        if date_exists(year, month, day) && time_exists(hour, minute, second) && zone_known(
            self.timezone_input,
        ) {
            chosen_instant(
                local_instants(self.timezone_input, year, month, day, hour, minute, second),
            )
        } else {
            None
        }
    }

    /// The instant that the dialog resolves to.
    pub open spec fn target(self) -> Option<ResolvedSchedule> {
        resolved(
            self.day,
            self.month,
            self.year,
            self.hour,
            self.minute,
            self.second,
            self.timezone_input,
        )
    }
}

/// A closed dialog with empty fields, these zones on offer, all of them
/// shown, and the day field active.
pub open spec fn blank_dialog(zones: Seq<Seq<char>>) -> ScheduleView {
    ScheduleView {
        day: Seq::empty(),
        month: Seq::empty(),
        year: Seq::empty(),
        hour: Seq::empty(),
        minute: Seq::empty(),
        second: Seq::empty(),
        timezone_input: Seq::empty(),
        available_timezones: zones,
        filtered_timezones: zones,
        selected_timezone_idx: 0,
        active_field: ScheduleField::Day,
        is_open: false,
    }
}

impl Default for ScheduleState {
    /// A closed dialog with empty fields, every zone of the time zone
    /// database on offer and the day field active.
    fn default() -> (state: ScheduleState)
        ensures
            state@ == blank_dialog(state@.available_timezones),
            are_all_zones(state@.available_timezones),
    {
        let zones = zone_names();
        ScheduleState {
            day: String::new(),
            month: String::new(),
            year: String::new(),
            hour: String::new(),
            minute: String::new(),
            second: String::new(),
            timezone_input: String::new(),
            filtered_timezones: copy_texts(&zones),
            available_timezones: zones,
            selected_timezone_idx: 0,
            active_field: ScheduleField::Day,
            is_open: false,
        }
    }
}

/// Appends `c` to `text` if `text` is shorter than `limit` bytes.
fn type_into(text: &mut String, c: char, limit: usize)
    ensures
        final(text)@ == typed_into(old(text)@, c, limit as nat),
{
    if crate::text::byte_len(text.as_str()) < limit {
        text.push(c);
    }
}

/// Removes the last character of `text`, if it has one.
fn erase_from(text: &mut String)
    ensures
        final(text)@ == erased_from(old(text)@),
{
    let _ = text.pop();
}

impl ScheduleState {
    /// Filters the zones by what has been typed: case is ignored, and so
    /// is whitespace around the input. The selection returns to the first
    /// zone.
    pub fn update_timezone_filter(&mut self)
        ensures
            final(self)@ == old(self)@.refiltered(),
    {
        let stripped = trim(self.timezone_input.as_str());
        if stripped.as_str().is_empty() {
            self.filtered_timezones = copy_texts(&self.available_timezones);
        } else {
            let query = stripped.as_str().to_lowercase();
            let ghost zones = texts(self.available_timezones@);
            let mut found: Vec<String> = Vec::new();
            let mut i: usize = 0;
            proof {
                assert(zones.take(0) =~= Seq::<Seq<char>>::empty());
            }
            while i < self.available_timezones.len()
                invariant
                    i <= self.available_timezones.len(),
                    zones == texts(self.available_timezones@),
                    texts(found@) == matching_zones(zones.take(i as int), query@),
                decreases self.available_timezones.len() - i,
            {
                proof {
                    assert(zones.take(i + 1).drop_last() =~= zones.take(i as int));
                    assert(zones.take(i + 1).last() == self.available_timezones@[i as int]@);
                }
                let lower = self.available_timezones[i].as_str().to_lowercase();
                if contains(lower.as_str(), query.as_str()) {
                    let ghost before = found@;
                    found.push(self.available_timezones[i].clone());
                    assert(texts(found@) =~= texts(before).push(
                        self.available_timezones@[i as int]@,
                    ));
                }
                i += 1;
            }
            proof {
                assert(zones.take(self.available_timezones.len() as int) =~= zones);
            }
            self.filtered_timezones = found;
        }
        self.selected_timezone_idx = 0;
    }

    /// Opens the dialog with the day field active. A dialog that lacks a
    /// date gets defaults first, if readings are at hand: the date of
    /// `today`, the hour and minute of `later`, zero seconds.
    pub fn open_with_defaults(&mut self, readings: Option<(ClockReading, ClockReading)>)
        ensures
            final(self)@ == match readings {
                Some((today, later)) if old(self)@.lacks_date() => old(self)@.with_defaults(
                    today,
                    later,
                ).opened(),
                _ => old(self)@.opened(),
            },
    {
        if self.day.as_str().is_empty() || self.year.as_str().is_empty() {
            match readings {
                Some((today, later)) => {
                    self.day = zero_pad(today.day as u64, 2);
                    self.month = zero_pad(today.month as u64, 2);
                    self.year = year_text(today.year);
                    self.hour = zero_pad(later.hour as u64, 2);
                    self.minute = zero_pad(later.minute as u64, 2);
                    self.second = String::from_str("00");
                },
                None => {},
            }
        }
        self.is_open = true;
        self.active_field = ScheduleField::Day;
    }

    /// Opens the dialog with the day field active. A dialog that lacks a
    /// date gets today's date in the system's zone, the time that it will
    /// be there in half an hour, and zero seconds. The clock is read at
    /// two instants: now for the date, and [`default_lead`] of now for
    /// the time. In the last half hour of the calendar the time is the
    /// present one.
    pub fn reset_defaults_if_empty(&mut self)
        ensures
            final(self)@.is_reset_of(old(self)@),
    {
        let now = now_timestamp();
        let today = local_reading(now);
        let later = match default_lead(now) {
            Some(then) => local_reading(then),
            None => None,
        };
        let readings = default_readings(today, later);
        assert(readings matches Some((shown, then)) && shown.is_on_the_dial()
            && then.is_on_the_dial());
        self.open_with_defaults(readings);
    }

    /// Empties the active field.
    pub fn clear_current_field(&mut self)
        ensures
            final(self)@ == old(self)@.cleared(),
    {
        match self.active_field {
            ScheduleField::Day => self.day = String::new(),
            ScheduleField::Month => self.month = String::new(),
            ScheduleField::Year => self.year = String::new(),
            ScheduleField::Hour => self.hour = String::new(),
            ScheduleField::Minute => self.minute = String::new(),
            ScheduleField::Second => self.second = String::new(),
            ScheduleField::Timezone => {
                self.timezone_input = String::new();
                self.update_timezone_filter();
            },
            ScheduleField::Submit => {},
        }
    }

    /// Types `c` into the active field. A date or time field takes it only
    /// while it is shorter than two bytes, the year while it is shorter
    /// than four; the zone field takes anything and filters the zones
    /// anew.
    pub fn handle_input(&mut self, c: char)
        ensures
            final(self)@ == old(self)@.typed(c),
    {
        match self.active_field {
            ScheduleField::Day => type_into(&mut self.day, c, 2),
            ScheduleField::Month => type_into(&mut self.month, c, 2),
            ScheduleField::Year => type_into(&mut self.year, c, 4),
            ScheduleField::Hour => type_into(&mut self.hour, c, 2),
            ScheduleField::Minute => type_into(&mut self.minute, c, 2),
            ScheduleField::Second => type_into(&mut self.second, c, 2),
            ScheduleField::Timezone => {
                self.timezone_input.push(c);
                self.update_timezone_filter();
            },
            ScheduleField::Submit => {},
        }
    }

    /// Erases the last character of the active field.
    pub fn handle_backspace(&mut self)
        ensures
            final(self)@ == old(self)@.erased(),
    {
        match self.active_field {
            ScheduleField::Day => erase_from(&mut self.day),
            ScheduleField::Month => erase_from(&mut self.month),
            ScheduleField::Year => erase_from(&mut self.year),
            ScheduleField::Hour => erase_from(&mut self.hour),
            ScheduleField::Minute => erase_from(&mut self.minute),
            ScheduleField::Second => erase_from(&mut self.second),
            ScheduleField::Timezone => {
                erase_from(&mut self.timezone_input);
                self.update_timezone_filter();
            },
            ScheduleField::Submit => {},
        }
    }

    /// Moves the focus to the next field, or to the previous one.
    pub fn cycle_field(&mut self, forward: bool)
        ensures
            final(self)@ == (ScheduleView {
                active_field: if forward {
                    old(self)@.active_field.next()
                } else {
                    old(self)@.active_field.prev()
                },
                ..old(self)@
            }),
    {
        self.active_field = self.active_field.step(forward);
    }

    /// The instant that the dialog is shown to aim at while it is being
    /// filled in: a field that is no number counts as 0.
    pub fn preview_target(&self) -> (target: Option<ResolvedSchedule>)
        ensures
            target == self@.preview(),
    {
        let day = parse_u32(self.day.as_str()).unwrap_or(0);
        let month = parse_u32(self.month.as_str()).unwrap_or(0);
        let year = parse_i32(self.year.as_str()).unwrap_or(0);
        let hour = parse_u32(self.hour.as_str()).unwrap_or(0);
        let minute = parse_u32(self.minute.as_str()).unwrap_or(0);
        let second = parse_u32(self.second.as_str()).unwrap_or(0);
        resolve_fields(year, month, day, hour, minute, second, self.timezone_input.as_str())
    }

    /// Resolves the dialog to an instant. There is none unless all six
    /// numbers parse, the date and the time exist, the zone is known and
    /// the time occurs in it; of two instants the earlier is taken.
    pub fn calculate_utc_target(&self) -> (target: Option<ResolvedSchedule>)
        ensures
            target == self@.target(),
    {
        let day = parse_u32(self.day.as_str())?;
        let month = parse_u32(self.month.as_str())?;
        let year = parse_i32(self.year.as_str())?;
        let hour = parse_u32(self.hour.as_str())?;
        let minute = parse_u32(self.minute.as_str())?;
        let second = parse_u32(self.second.as_str())?;
        resolve_fields(year, month, day, hour, minute, second, self.timezone_input.as_str())
    }
}

/// Emptying the active field leaves the focus and the dialog open or
/// closed as they were; emptying the zone field shows every zone again,
/// the first of them selected; and emptying a second time changes nothing
/// more.
pub proof fn lemma_cleared_field_is_empty(dialog: ScheduleView)
    ensures
        dialog.cleared().active_field == dialog.active_field,
        dialog.cleared().is_open == dialog.is_open,
        dialog.cleared().available_timezones == dialog.available_timezones,
        dialog.active_field == ScheduleField::Timezone ==> dialog.cleared().timezone_input.len()
            == 0 && dialog.cleared().filtered_timezones == dialog.available_timezones
            && dialog.cleared().selected_timezone_idx == 0,
        dialog.active_field == ScheduleField::Submit ==> dialog.cleared() == dialog,
        dialog.cleared().cleared() == dialog.cleared(),
{
    let nothing = Seq::<char>::empty();
    assert(trim_start_of(nothing) == nothing);
    assert(trim_end_of(nothing) == nothing);
    assert(trimmed(nothing).len() == 0);
}

/// A schedule resolves only from numbers that name a date and a time
/// which exist, in a zone which is known and whose clocks show that time;
/// and the instant is one at which they show it, the earlier one where
/// there are two.
pub proof fn lemma_resolved_time_occurs(
    day: Seq<char>,
    month: Seq<char>,
    year: Seq<char>,
    hour: Seq<char>,
    minute: Seq<char>,
    second: Seq<char>,
    zone: Seq<char>,
)
    requires
        resolved(day, month, year, hour, minute, second, zone) is Some,
    ensures
        parsed_u32(day) is Some && parsed_u32(month) is Some && parsed_i32(year) is Some,
        parsed_u32(hour) is Some && parsed_u32(minute) is Some && parsed_u32(second) is Some,
        date_exists(parsed_i32(year)->0, parsed_u32(month)->0, parsed_u32(day)->0),
        time_exists(parsed_u32(hour)->0, parsed_u32(minute)->0, parsed_u32(second)->0),
        zone_known(zone),
        ({
            let at = resolved(day, month, year, hour, minute, second, zone)->0.timestamp;
            match local_instants(
                zone,
                parsed_i32(year)->0,
                parsed_u32(month)->0,
                parsed_u32(day)->0,
                parsed_u32(hour)->0,
                parsed_u32(minute)->0,
                parsed_u32(second)->0,
            ) {
                LocalInstants::Skipped => false,
                LocalInstants::Single(only) => at == only,
                LocalInstants::Ambiguous(first, second) => (at == first || at == second) && at
                    <= first && at <= second,
            }
        }),
{
}

/// No day after the 29th of February resolves, whatever the year, the time
/// and the zone; nor does a 31st of April, June, September or November.
pub proof fn lemma_short_months_end_early(
    day: Seq<char>,
    month: Seq<char>,
    year: Seq<char>,
    hour: Seq<char>,
    minute: Seq<char>,
    second: Seq<char>,
    zone: Seq<char>,
)
    requires
        parsed_u32(day) is Some,
        parsed_u32(month) is Some,
        ({
            let d = parsed_u32(day)->0;
            let m = parsed_u32(month)->0;
            (m == 2 && d > 29) || ((m == 4 || m == 6 || m == 9 || m == 11) && d > 30)
        }),
    ensures
        resolved(day, month, year, hour, minute, second, zone) is None,
{
}

} // verus!
