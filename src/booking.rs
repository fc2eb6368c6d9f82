use vstd::prelude::*;
use crate::error::AppError;
use crate::text::{same_text, texts_of};

verus! {

/// Day numbers, counted from 1 January of year 1 as day 1, stay strictly
/// within this distance of zero.
pub const DAY_LIMIT: i32 = 100_000_000;

/// Every date that chrono can hold lies strictly within this many days of day zero.
pub const DATE_LIMIT: i32 = 96_000_000;

/// The day number of a `YYYY-MM-DD` text, as chrono reads it.
pub uninterp spec fn ymd_day_of(s: Seq<char>) -> Option<i32>;

/// Relies on chrono's `NaiveDate::parse_from_str` with `%Y-%m-%d` and
/// `Datelike::num_days_from_ce`: the day number of the date the text spells.
#[verifier::external_body]
fn parse_ymd(s: &str) -> (r: Option<i32>)
    ensures
        r == ymd_day_of(s@),
        r matches Some(d) ==> -DATE_LIMIT < d < DATE_LIMIT,
{
    chrono::NaiveDate::parse_from_str(s, "%Y-%m-%d").ok().map(|d| chrono::Datelike::num_days_from_ce(&d))
}

/// Relies on chrono's `Utc::now`, `DateTime::date_naive` and
/// `Datelike::num_days_from_ce`: the day number of today's date in UTC.
#[verifier::external_body]
fn today() -> (r: i32)
    ensures
        -DATE_LIMIT < r < DATE_LIMIT,
{
    chrono::Datelike::num_days_from_ce(&chrono::Utc::now().date_naive())
}

/// The hourly rate, in cents, of a chef who has not set one.
pub const DEFAULT_HOURLY_RATE_CENTS: i64 = 10_000;

/// How many days after the first one the availability calendar covers when no
/// end is asked for.
pub const DEFAULT_RANGE_DAYS: i32 = 30;

/// A time of day: whole seconds since midnight and the nanoseconds past them.
#[derive(Debug, Clone, Copy, PartialEq, Eq, Structural)]
pub struct TimeOfDay {
    pub secs: u32,
    pub nanos: u32,
}

/// The days an availability request covers: from the start asked for (or
/// today) to the end asked for (or thirty days after the start).
pub open spec fn range_of(start: Option<Seq<char>>, end: Option<Seq<char>>, today: i32) -> (i32, i32) {
    let s = match start {
        Some(t) => match ymd_day_of(t) {
            Some(d) => d,
            None => today,
        },
        None => today,
    };
    let e = match end {
        Some(t) => match ymd_day_of(t) {
            Some(d) => d,
            None => (s + DEFAULT_RANGE_DAYS) as i32,
        },
        None => (s + DEFAULT_RANGE_DAYS) as i32,
    };
    (s, e)
}

/// A booking already on a chef's calendar.
#[derive(Debug, Clone)]
pub struct ExistingBooking {
    pub date: i32,
    pub time: TimeOfDay,
    pub status: String,
}

/// The date and time of a pending or confirmed booking.
#[derive(Debug, Clone, Copy, PartialEq, Eq, Structural)]
pub struct BookedTime {
    pub date: i32,
    pub time: TimeOfDay,
}

/// What is free on one day.
#[derive(Debug)]
pub struct BookingAvailability {
    pub date: i32,
    pub available: bool,
    pub available_times: Vec<String>,
}

/// The day number of a date that the calendar can hold.
pub open spec fn valid_day(d: int) -> bool {
    -DAY_LIMIT < d < DAY_LIMIT
}

/// Whether a booking in this status holds its slot.
pub open spec fn holds_slot(status: Seq<char>) -> bool {
    status == "pending"@ || status == "confirmed"@
}

/// Whether a booking that holds its slot stands at exactly this date and time.
pub open spec fn slot_taken_in(existing: Seq<ExistingBooking>, date: i32, time: TimeOfDay) -> bool {
    exists|i: int|
        0 <= i < existing.len() && holds_slot(#[trigger] existing[i].status@) && existing[i].date == date
            && existing[i].time == time
}

/// The minutes charged: the minutes asked for, but never fewer than the
/// chef's minimum hours.
pub open spec fn charged_minutes_of(minimum_hours: i32, requested_minutes: i64) -> int {
    if 60 * minimum_hours >= requested_minutes {
        60 * minimum_hours
    } else {
        requested_minutes as int
    }
}

/// The price of a booking, in sixtieths of a cent: the hourly rate in cents
/// times the charged minutes times the guests (a rate per hour times minutes
/// counts sixtieths).
pub open spec fn price_of(rate_cents: i64, minimum_hours: i32, requested_minutes: i64, guests: i32) -> int {
    rate_cents * charged_minutes_of(minimum_hours, requested_minutes) * guests
}

/// Whether a number fits in an `i128`.
pub open spec fn fits_i128(x: int) -> bool {
    i128::MIN <= x <= i128::MAX
}

/// The rate that applies: the chef's own, or the default one.
pub open spec fn rate_of(rate: Option<i64>) -> i64 {
    match rate {
        Some(r) => r,
        None => DEFAULT_HOURLY_RATE_CENTS,
    }
}

/// The three times offered each day, in order.
pub open spec fn slot_time(k: int) -> TimeOfDay {
    if k == 0 {
        TimeOfDay { secs: 36000, nanos: 0 }
    } else if k == 1 {
        TimeOfDay { secs: 50400, nanos: 0 }
    } else {
        TimeOfDay { secs: 64800, nanos: 0 }
    }
}

pub open spec fn slot_label(k: int) -> Seq<char> {
    if k == 0 {
        "10:00"@
    } else if k == 1 {
        "14:00"@
    } else {
        "18:00"@
    }
}

/// Whether some pending or confirmed booking stands at this date and time.
pub open spec fn booked_at(bookings: Seq<BookedTime>, date: int, time: TimeOfDay) -> bool {
    exists|i: int| 0 <= i < bookings.len() && #[trigger] bookings[i].date == date && bookings[i].time == time
}

/// The labels of the offered times of slots `0..n` that no booking holds on `date`.
pub open spec fn open_labels(bookings: Seq<BookedTime>, date: int, n: int) -> Seq<Seq<char>>
    decreases n,
{
    if n <= 0 {
        Seq::empty()
    } else if booked_at(bookings, date, slot_time(n - 1)) {
        open_labels(bookings, date, n - 1)
    } else {
        open_labels(bookings, date, n - 1).push(slot_label(n - 1))
    }
}

/// Whether one day's entry says what is free on `date`.
pub open spec fn day_entry(a: BookingAvailability, bookings: Seq<BookedTime>, date: int) -> bool {
    &&& a.date == date
    &&& texts_of(a.available_times@) == open_labels(bookings, date, 3)
    &&& a.available == (open_labels(bookings, date, 3).len() > 0)
}

/// Whether a booking in this status holds its slot.
pub fn is_active_status(status: &str) -> (r: bool)
    ensures
        r == holds_slot(status@),
{
    same_text(status, "pending") || same_text(status, "confirmed")
}

/// Whether a pending or confirmed booking already stands at this date and time.
pub fn slot_taken(existing: &Vec<ExistingBooking>, date: i32, time: TimeOfDay) -> (r: bool)
    ensures
        r == slot_taken_in(existing@, date, time),
{
    let mut i: usize = 0;
    while i < existing.len()
        invariant
            i <= existing@.len(),
            forall|j: int|
                0 <= j < i ==> !(holds_slot(#[trigger] existing@[j].status@) && existing@[j].date == date
                    && existing@[j].time == time),
        decreases existing.len() - i,
    {
        let b = &existing[i];
        if b.date == date && b.time == time && is_active_status(b.status.as_str()) {
            return true;
        }
        i = i + 1;
    }
    false
}

/// Refuses a booking whose slot a pending or confirmed booking already holds.
pub fn check_slot_free(existing: &Vec<ExistingBooking>, date: i32, time: TimeOfDay) -> (r: Result<(), AppError>)
    ensures
        !slot_taken_in(existing@, date, time) ==> r is Ok,
        slot_taken_in(existing@, date, time) ==> (r matches Err(AppError::ValidationError(m)) && m@
            == "Time slot is already booked"@),
{
    if slot_taken(existing, date, time) {
        Err(AppError::validation("Time slot is already booked"))
    } else {
        Ok(())
    }
}

/// The minutes charged for a booking.
pub fn charged_minutes(minimum_hours: i32, requested_minutes: i64) -> (r: i64)
    ensures
        r == charged_minutes_of(minimum_hours, requested_minutes),
        r >= 60 * minimum_hours,
        r >= requested_minutes,
{
    let minimum: i64 = 60 * (minimum_hours as i64);
    if minimum >= requested_minutes {
        minimum
    } else {
        requested_minutes
    }
}

/// The price of a booking at the chef's rate (or the default one), in
/// sixtieths of a cent; none where it does not fit in an `i128`.
pub fn booking_price(hourly_rate_cents: Option<i64>, minimum_hours: i32, requested_minutes: i64, guests: i32) -> (r: Option<i128>)
    ensures
        fits_i128(price_of(rate_of(hourly_rate_cents), minimum_hours, requested_minutes, guests)) ==> r == Some(
            price_of(rate_of(hourly_rate_cents), minimum_hours, requested_minutes, guests) as i128,
        ),
        !fits_i128(price_of(rate_of(hourly_rate_cents), minimum_hours, requested_minutes, guests)) ==> r is None,
{
    let rate: i64 = match hourly_rate_cents {
        Some(x) => x,
        None => DEFAULT_HOURLY_RATE_CENTS,
    };
    let minutes = charged_minutes(minimum_hours, requested_minutes);
    let a: i128 = rate as i128;
    let b: i128 = minutes as i128;
    assert(-0x8000_0000_0000_0000 * 0x8000_0000_0000_0000 <= a * b <= 0x8000_0000_0000_0000 * 0x8000_0000_0000_0000) by (nonlinear_arith)
        requires
            -0x8000_0000_0000_0000 <= a < 0x8000_0000_0000_0000,
            -0x8000_0000_0000_0000 <= b < 0x8000_0000_0000_0000,
    ;
    let ab = a * b;
    ab.checked_mul(guests as i128)
}

/// The price, in sixtieths of a cent, of a new booking, or why it cannot be
/// made: the chef (their rate and minimum hours) is not found, the slot is
/// taken, or the price does not fit in an `i128`.
pub fn plan_booking(chef: Option<(Option<i64>, i32)>, existing: &Vec<ExistingBooking>, date: i32, time: TimeOfDay, requested_minutes: i64, guests: i32) -> (r: Result<i128, AppError>)
    ensures
        chef is None ==> (r matches Err(AppError::NotFound(m)) && m@ == "Chef not found"@),
        chef matches Some(c) ==> {
            &&& slot_taken_in(existing@, date, time) ==> (r matches Err(AppError::ValidationError(m))
                && m@ == "Time slot is already booked"@)
            &&& (!slot_taken_in(existing@, date, time) && fits_i128(price_of(rate_of(c.0), c.1, requested_minutes, guests)))
                ==> r == Ok::<i128, AppError>(price_of(rate_of(c.0), c.1, requested_minutes, guests) as i128)
            &&& (!slot_taken_in(existing@, date, time) && !fits_i128(price_of(rate_of(c.0), c.1, requested_minutes, guests)))
                ==> (r matches Err(AppError::ValidationError(m)) && m@ == "Booking price out of range"@)
        },
{
    match chef {
        None => Err(AppError::not_found("Chef not found")),
        Some((rate, minimum_hours)) => {
            let total = booking_price(rate, minimum_hours, requested_minutes, guests);
            match check_slot_free(existing, date, time) {
                Ok(()) => match total {
                    Some(t) => Ok(t),
                    None => Err(AppError::validation("Booking price out of range")),
                },
                Err(e) => Err(e),
            }
        },
    }
}

/// A second booking at the date and time of a pending or confirmed one is
/// refused; one at another time of the same day, where nothing stands, is not.
pub proof fn lemma_exact_slot_conflict(existing: Seq<ExistingBooking>, i: int, other: TimeOfDay)
    requires
        0 <= i < existing.len(),
        holds_slot(existing[i].status@),
        other != existing[i].time,
        forall|j: int| 0 <= j < existing.len() && existing[j].date == existing[i].date ==> existing[j].time
            != other,
    ensures
        slot_taken_in(existing, existing[i].date, existing[i].time),
        !slot_taken_in(existing, existing[i].date, other),
{
}

/// The offered time of slot `k`.
fn slot(k: usize) -> (r: (TimeOfDay, &'static str))
    requires
        k < 3,
    ensures
        r.0 == slot_time(k as int),
        r.1@ == slot_label(k as int),
{
    if k == 0 {
        (TimeOfDay { secs: 36000, nanos: 0 }, "10:00")
    } else if k == 1 {
        (TimeOfDay { secs: 50400, nanos: 0 }, "14:00")
    } else {
        (TimeOfDay { secs: 64800, nanos: 0 }, "18:00")
    }
}

/// Whether a booking stands at this date and time.
fn is_booked(bookings: &Vec<BookedTime>, date: i32, time: TimeOfDay) -> (r: bool)
    ensures
        r == booked_at(bookings@, date as int, time),
{
    let mut i: usize = 0;
    while i < bookings.len()
        invariant
            i <= bookings@.len(),
            forall|j: int| 0 <= j < i ==> !(#[trigger] bookings@[j].date == date && bookings@[j].time == time),
        decreases bookings.len() - i,
    {
        if bookings[i].date == date && bookings[i].time == time {
            return true;
        }
        i = i + 1;
    }
    false
}

/// What is free on one day: the offered times that no booking holds.
pub fn day_availability(bookings: &Vec<BookedTime>, date: i32) -> (r: BookingAvailability)
    ensures
        day_entry(r, bookings@, date as int),
{
    let mut times: Vec<String> = Vec::new();
    let mut k: usize = 0;
    while k < 3
        invariant
            k <= 3,
            texts_of(times@) == open_labels(bookings@, date as int, k as int),
        decreases 3 - k,
    {
        let (t, label) = slot(k);
        if !is_booked(bookings, date, t) {
            times.push(String::from_str(label));
            proof {
                assert(texts_of(times@) =~= open_labels(bookings@, date as int, k as int).push(label@));
            }
        }
        k = k + 1;
    }
    let available = times.len() > 0;
    proof {
        assert(texts_of(times@).len() == times@.len());
    }
    BookingAvailability { date, available, available_times: times }
}

/// What is free on each day from `start` to `end`, both included.
pub fn get_chef_availability(bookings: &Vec<BookedTime>, start: i32, end: i32) -> (r: Vec<BookingAvailability>)
    requires
        valid_day(start as int),
        valid_day(end as int),
    ensures
        start > end ==> r@.len() == 0,
        start <= end ==> r@.len() == end - start + 1,
        forall|k: int| 0 <= k < r@.len() ==> day_entry(#[trigger] r@[k], bookings@, start + k),
{
    let mut days: Vec<BookingAvailability> = Vec::new();
    let mut current: i32 = start;
    while current <= end
        invariant
            valid_day(start as int),
            valid_day(end as int),
            start <= current <= end + 1 || (start > end && current == start),
            days@.len() == if start <= end { current - start } else { 0 },
            forall|k: int| 0 <= k < days@.len() ==> day_entry(#[trigger] days@[k], bookings@, start + k),
        decreases end + 1 - current,
    {
        days.push(day_availability(bookings, current));
        current = current + 1;
    }
    days
}

fn day_or(o: Option<&str>, d: i32) -> (r: i32)
    requires
        valid_day(d as int),
    ensures
        valid_day(r as int),
        -DATE_LIMIT < d < DATE_LIMIT ==> -DATE_LIMIT < r < DATE_LIMIT,
        r == (match o {
            Some(t) => match ymd_day_of(t@) {
                Some(x) => x,
                None => d,
            },
            None => d,
        }),
{
    match o {
        Some(t) => match parse_ymd(t) {
            Some(x) => x,
            None => d,
        },
        None => d,
    }
}

/// The days an availability request covers, given today's day number.
pub fn availability_range_from(start: Option<&str>, end: Option<&str>, today: i32) -> (r: (i32, i32))
    requires
        -DATE_LIMIT < today < DATE_LIMIT,
    ensures
        r == range_of(crate::forms::opt_str(start), crate::forms::opt_str(end), today),
        valid_day(r.0 as int),
        valid_day(r.1 as int),
{
    let s = day_or(start, today);
    let e = day_or(end, s + DEFAULT_RANGE_DAYS);
    (s, e)
}

/// The days an availability request covers, counting from today where no start is asked for.
pub fn availability_range(start: Option<&str>, end: Option<&str>) -> (r: (i32, i32))
    ensures
        valid_day(r.0 as int),
        valid_day(r.1 as int),
        start matches Some(t) ==> (ymd_day_of(t@) matches Some(d) ==> r.0 == d),
        end matches Some(t) ==> (ymd_day_of(t@) matches Some(d) ==> r.1 == d),
        end is None ==> r.1 == r.0 + DEFAULT_RANGE_DAYS,
        end matches Some(t) ==> (ymd_day_of(t@) is None ==> r.1 == r.0 + DEFAULT_RANGE_DAYS),
{
    availability_range_from(start, end, today())
}

} // verus!
