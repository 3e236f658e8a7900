//! Moments on the local clock, the days they fall on, and calendar dates.

use chrono::Datelike;
use vstd::prelude::*;

use crate::text;


verus! {

/// The first day that the calendar knows, counted from the first day of the
/// year 1, which is day 1.
pub const MIN_DAY: i32 = -95_746_129;

/// The last day that the calendar knows.
pub const MAX_DAY: i32 = 95_745_399;

/// The first second of the first day, counted from the midnight at which the
/// year 1970 began.
pub const MIN_WALL: i64 = -8_334_601_228_800;

/// The last second of the last day.
pub const MAX_WALL: i64 = 8_210_266_876_799;

/// The first year that the calendar knows.
pub const MIN_YEAR: i32 = -262_143;

/// The last year that the calendar knows.
pub const MAX_YEAR: i32 = 262_142;

/// The day on which second `wall` falls: the seconds of a day are numbered
/// through from midnight, and day 719163 is the first of January 1970.
pub open spec fn day_of(wall: int) -> int {
    wall / 86_400 + 719_163
}

/// The calendar knows this day.
pub open spec fn known_day(day: int) -> bool {
    MIN_DAY <= day <= MAX_DAY
}

// ---------------------------------------------------------------------------
// The clock and the calendar
// ---------------------------------------------------------------------------

/// `chrono::Local::now`: what the local clock shows at the time of the call,
/// as the seconds that have passed on it since its midnight of the first of
/// January 1970 (`DateTime::naive_local`), the nanoseconds of the running
/// second, which go on past a billion in a leap second, and how many seconds
/// it is ahead of UTC. Of the reading itself nothing more is known: it is the
/// machine's. No reading comes back from a clock set before 1970 in UTC or
/// past the last day of the calendar.
#[verifier::external_body]
fn read_clock() -> (reading: (i64, u32, i32))
    ensures
        MIN_WALL <= reading.0 <= MAX_WALL,
        reading.1 < 2_000_000_000,
        -86_400 < reading.2 < 86_400,
{
    let now = chrono::Local::now();
    let wall = now.naive_local().and_utc().timestamp();
    (wall, now.timestamp_subsec_nanos(), now.offset().local_minus_utc())
}

/// `chrono::DateTime::date_naive`: the day on which a second falls, by its
/// number from the first day of the year 1.
#[verifier::external_body]
fn date_naive(wall: i64) -> (day: i32)
    requires
        MIN_WALL <= wall <= MAX_WALL,
    ensures
        day == day_of(wall as int),
{
    let shown = chrono::DateTime::from_timestamp(wall, 0).unwrap();
    shown.date_naive().num_days_from_ce()
}

/// `chrono::NaiveDate::signed_duration_since`, in whole days: how many days
/// lie from `earlier` to `later`, negative if they stand the other way round.
#[verifier::external_body]
fn signed_days_since(later: i32, earlier: i32) -> (days: i64)
    requires
        known_day(later as int),
        known_day(earlier as int),
    ensures
        days == later - earlier,
{
    let later = chrono::NaiveDate::from_num_days_from_ce_opt(later).unwrap();
    let earlier = chrono::NaiveDate::from_num_days_from_ce_opt(earlier).unwrap();
    later.signed_duration_since(earlier).num_days()
}

/// The year has a 29th of February.
pub open spec fn leap_year(year: int) -> bool {
    year % 4 == 0 && (year % 100 != 0 || year % 400 == 0)
}

/// How many days a month has.
pub open spec fn days_in_month(year: int, month: int) -> int {
    if month == 2 {
        if leap_year(year) {
            29
        } else {
            28
        }
    } else if month == 4 || month == 6 || month == 9 || month == 11 {
        30
    } else {
        31
    }
}

/// The calendar has this date.
pub open spec fn on_calendar(year: int, month: int, day: int) -> bool {
    &&& MIN_YEAR <= year <= MAX_YEAR
    &&& 1 <= month <= 12
    &&& 1 <= day <= days_in_month(year, month)
}

/// A date as the year, the month and the day with hyphens between them. The
/// year has at least four digits, and a sign where four digits cannot hold it.
pub open spec fn date_text(year: int, month: int, day: int) -> Seq<char> {
    let sign: Seq<char> = if year < 0 {
        seq!['-']
    } else if year > 9999 {
        seq!['+']
    } else {
        seq![]
    };
    let size = if year < 0 {
        (-year) as nat
    } else {
        year as nat
    };
    sign + text::padded(size, 4) + seq!['-'] + text::padded(month as nat, 2) + seq!['-']
        + text::padded(day as nat, 2)
}

/// The `Display` of `chrono::NaiveDate`: a date of the calendar written out.
#[verifier::external_body]
fn display_date(year: i32, month: u32, day: u32) -> (text: String)
    requires
        on_calendar(year as int, month as int, day as int),
    ensures
        text@ == date_text(year as int, month as int, day as int),
{
    chrono::NaiveDate::from_ymd_opt(year, month, day).unwrap().to_string()
}

/// The `Default` of `chrono::NaiveDate`: the first of January 1970, as the
/// year, the month and the day.
#[verifier::external_body]
fn default_date() -> (date: (i32, u32, u32))
    ensures
        date == (1970i32, 1u32, 1u32),
{
    let date = chrono::NaiveDate::default();
    (date.year(), date.month(), date.day())
}

// ---------------------------------------------------------------------------
// Moments
// ---------------------------------------------------------------------------

/// A moment on the local clock, with the clock's distance from UTC.
#[derive(Clone, Copy, Debug)]
pub struct Moment {
    wall: i64,
    nanos: u32,
    offset: i32,
}

impl Moment {
    #[verifier::type_invariant]
    spec fn inv(self) -> bool {
        &&& MIN_WALL <= self.wall <= MAX_WALL
        &&& self.nanos < 2_000_000_000
        &&& -86_400 < self.offset < 86_400
    }

    /// The seconds that the clock shows, counted from its midnight of the
    /// first of January 1970.
    pub closed spec fn spec_wall(self) -> int {
        self.wall as int
    }

    /// The nanoseconds since that second began.
    pub closed spec fn spec_nanos(self) -> int {
        self.nanos as int
    }

    /// How many seconds the clock is ahead of UTC.
    pub closed spec fn spec_offset(self) -> int {
        self.offset as int
    }

    /// The day that the clock shows.
    pub open spec fn spec_day(self) -> int {
        day_of(self.spec_wall())
    }

    /// A reading that a clock can give.
    pub open spec fn possible(wall: int, nanos: int, offset: int) -> bool {
        &&& MIN_WALL <= wall <= MAX_WALL
        &&& 0 <= nanos < 2_000_000_000
        &&& -86_400 < offset < 86_400
    }

    /// A moment that a clock can show. Every moment is.
    pub open spec fn shown(self) -> bool {
        Moment::possible(self.spec_wall(), self.spec_nanos(), self.spec_offset())
    }

    /// The clock has shown this moment: it is a reading that `read_clock` gives.
    pub closed spec fn was_read(self) -> bool {
        call_ensures(read_clock, (), (self.wall, self.nanos, self.offset))
    }

    /// The moment of a reading, or `None` where no clock shows it.
    pub fn new(wall: i64, nanos: u32, offset: i32) -> (moment: Option<Moment>)
        ensures
            match moment {
                Some(m) => {
                    &&& Moment::possible(wall as int, nanos as int, offset as int)
                    &&& m.spec_wall() == wall
                    &&& m.spec_nanos() == nanos
                    &&& m.spec_offset() == offset
                },
                None => !Moment::possible(wall as int, nanos as int, offset as int),
            },
    {
        if MIN_WALL <= wall && wall <= MAX_WALL && nanos < 2_000_000_000 && -86_400 < offset
            && offset < 86_400 {
            Some(Moment { wall, nanos, offset })
        } else {
            None
        }
    }

    /// What the local clock shows now.
    pub fn now() -> (moment: Moment)
        ensures
            moment.shown(),
            moment.was_read(),
    {
        let (wall, nanos, offset) = read_clock();
        Moment { wall, nanos, offset }
    }

    pub fn wall(&self) -> (wall: i64)
        ensures
            wall == self.spec_wall(),
    {
        self.wall
    }

    pub fn nanos(&self) -> (nanos: u32)
        ensures
            nanos == self.spec_nanos(),
    {
        self.nanos
    }

    pub fn offset(&self) -> (offset: i32)
        ensures
            offset == self.spec_offset(),
    {
        self.offset
    }

    /// The day that the clock shows.
    pub fn day(&self) -> (day: i32)
        ensures
            day == self.spec_day(),
            known_day(day as int),
            self.shown(),
    {
        proof {
            use_type_invariant(self);
        }
        date_naive(self.wall)
    }

    /// How many days ago, on the calendar, `earlier` was.
    pub fn days_since(&self, earlier: &Moment) -> (days: i64)
        ensures
            days == self.spec_day() - earlier.spec_day(),
    {
        signed_days_since(self.day(), earlier.day())
    }
}

/// A moment that was read is, second for second, what the clock gave.
proof fn law_read_from_the_clock(moment: Moment, wall: i64, nanos: u32, offset: i32)
    requires
        moment.was_read(),
        moment.spec_wall() == wall,
        moment.spec_nanos() == nanos,
        moment.spec_offset() == offset,
    ensures
        call_ensures(read_clock, (), (wall, nanos, offset)),
{
}

/// There are moments that a clock can show.
pub proof fn lemma_a_clock_shows_something()
    ensures
        exists|moment: Moment| moment.shown(),
{
    let midnight = Moment { wall: 0, nanos: 0, offset: 0 };
    assert(midnight.shown());
}

// ---------------------------------------------------------------------------
// Dates
// ---------------------------------------------------------------------------

/// A date of the calendar.
#[derive(Clone, Copy, Debug)]
pub struct Date {
    year: i32,
    month: u32,
    day: u32,
}

impl Date {
    #[verifier::type_invariant]
    spec fn inv(self) -> bool {
        on_calendar(self.year as int, self.month as int, self.day as int)
    }

    /// The year, the month and the day.
    pub closed spec fn ymd(self) -> (int, int, int) {
        (self.year as int, self.month as int, self.day as int)
    }

    /// The date written out.
    pub open spec fn spec_text(self) -> Seq<char> {
        date_text(self.ymd().0, self.ymd().1, self.ymd().2)
    }

    /// The date of a year, a month and a day, or `None` where the calendar
    /// has no such date.
    pub fn new(year: i32, month: u32, day: u32) -> (date: Option<Date>)
        ensures
            match date {
                Some(date) => {
                    &&& on_calendar(year as int, month as int, day as int)
                    &&& date.ymd() == (year as int, month as int, day as int)
                },
                None => !on_calendar(year as int, month as int, day as int),
            },
    {
        if year < MIN_YEAR || year > MAX_YEAR || month < 1 || month > 12 {
            return None;
        }
        let leap = year % 4 == 0 && (year % 100 != 0 || year % 400 == 0);
        let days: u32 = if month == 2 {
            if leap {
                29
            } else {
                28
            }
        } else if month == 4 || month == 6 || month == 9 || month == 11 {
            30
        } else {
            31
        };
        if 1 <= day && day <= days {
            Some(Date { year, month, day })
        } else {
            None
        }
    }

    /// The date that stands for one that is not known.
    pub fn unknown() -> (date: Date)
        ensures
            date.ymd() == (1970int, 1int, 1int),
    {
        let (year, month, day) = default_date();
        Date { year, month, day }
    }

    /// The date written out.
    pub fn text(&self) -> (text: String)
        ensures
            text@ == self.spec_text(),
    {
        proof {
            use_type_invariant(self);
        }
        display_date(self.year, self.month, self.day)
    }
}

// ---------------------------------------------------------------------------
// Laws
// ---------------------------------------------------------------------------

/// The days are those of 86400 seconds each that start at the midnights: second
/// `n` of the day that is `d` days after the first of January 1970 falls on
/// that day.
pub proof fn law_days_start_at_midnight(d: int, n: int)
    requires
        0 <= n < 86_400,
    ensures
        day_of(d * 86_400 + n) == day_of(0) + d,
        day_of(0) == 719_163,
{
}

/// A reading is possible exactly within the calendar, the two seconds that a
/// leap second takes, and a day's distance from UTC.
pub proof fn law_possible_readings(wall: int, nanos: int, offset: int)
    ensures
        Moment::possible(wall, nanos, offset) <==> {
            &&& -95_746_129 <= day_of(wall) <= 95_745_399
            &&& 0 <= nanos < 2_000_000_000
            &&& -86_400 < offset < 86_400
        },
{
}

/// The months have the days that they have, February one more in leap years, so
/// that a year has 365 or 366 days. Every fourth year is a leap year, but of the
/// full centuries only every fourth.
pub proof fn law_calendar(year: int)
    ensures
        ({
            let feb = days_in_month(year, 2);
            let leap = year % 4 == 0 && year % 100 != 0 || year % 400 == 0;
            &&& feb == if leap {
                29int
            } else {
                28int
            }
            &&& forall|month: int|
                #![trigger days_in_month(year, month)]
                1 <= month <= 12 && month != 2 ==> days_in_month(year, month) == if month == 4
                    || month == 6 || month == 9 || month == 11 {
                    30int
                } else {
                    31int
                }
        }),
        forall|month: int, day: int|
            on_calendar(year, month, day) <==> -262_143 <= year <= 262_142 && 1 <= month <= 12
                && 1 <= day <= days_in_month(year, month),
{
}

/// A date of a year with up to four digits is written in ten characters, from
/// which the year, the month and the day can be read back.
pub proof fn law_date_is_read_back(year: int, month: int, day: int)
    requires
        0 <= year <= 9999,
        on_calendar(year, month, day),
    ensures
        ({
            let written = date_text(year, month, day);
            &&& written.len() == 10
            &&& text::value(written.subrange(0, 4)) == year
            &&& written[4] == '-'
            &&& text::value(written.subrange(5, 7)) == month
            &&& written[7] == '-'
            &&& text::value(written.subrange(8, 10)) == day
        }),
{
    reveal_with_fuel(text::decimal, 5);
    text::law_padded_is_read_back(year as nat, 4);
    text::law_padded_is_read_back(month as nat, 2);
    text::law_padded_is_read_back(day as nat, 2);
    let written = date_text(year, month, day);
    assert(written.subrange(0, 4) =~= text::padded(year as nat, 4));
    assert(written.subrange(5, 7) =~= text::padded(month as nat, 2));
    assert(written.subrange(8, 10) =~= text::padded(day as nat, 2));
}

/// A date that is made of a year, a month and a day is written as that date.
pub proof fn law_date_is_written_as_made(date: Date, year: int, month: int, day: int)
    requires
        date.ymd() == (year, month, day),
    ensures
        date.spec_text() == date_text(year, month, day),
{
}

/// A date of a year that four digits cannot hold starts with the sign of the
/// year; from what follows, the date can be read back.
pub proof fn law_far_date_is_read_back(year: int, month: int, day: int)
    requires
        year < 0 || year > 9999,
        on_calendar(year, month, day),
    ensures
        ({
            let written = date_text(year, month, day);
            let n = written.len() as int;
            &&& n >= 11
            &&& written[0] == if year < 0 {
                '-'
            } else {
                '+'
            }
            &&& text::value(written.subrange(1, n - 6)) == if year < 0 {
                -year
            } else {
                year
            }
            &&& written[n - 6] == '-'
            &&& text::value(written.subrange(n - 5, n - 3)) == month
            &&& written[n - 3] == '-'
            &&& text::value(written.subrange(n - 2, n)) == day
        }),
{
    let size = if year < 0 {
        (-year) as nat
    } else {
        year as nat
    };
    reveal_with_fuel(text::decimal, 3);
    text::law_padded_is_read_back(size, 4);
    text::law_padded_is_read_back(month as nat, 2);
    text::law_padded_is_read_back(day as nat, 2);
    let written = date_text(year, month, day);
    let n = written.len() as int;
    assert(written.subrange(1, n - 6) =~= text::padded(size, 4));
    assert(written.subrange(n - 5, n - 3) =~= text::padded(month as nat, 2));
    assert(written.subrange(n - 2, n) =~= text::padded(day as nat, 2));
}

} // verus!
