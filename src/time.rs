//! Local wall-clock timestamps, day windows and backdating.
//!
//! Every timestamp of this crate is a local wall-clock reading: a day number
//! (January 1 of year 1 is day 1) and the second within that day. Windows and
//! stored records use this one representation, so they always compare alike.
use vstd::prelude::*;

verus! {

/// Seconds in one calendar day of wall-clock time.
pub const SECONDS_PER_DAY: u32 = 86400;

/// Time of day given to backdated records: local noon.
pub const NOON: u32 = 43200;

/// A local wall-clock reading.
#[derive(Clone, Copy, Debug, PartialEq, Eq, Structural)]
pub struct Timestamp {
    pub day: i64,
    pub second: u32,
}

impl Timestamp {
    /// The second lies within its day.
    pub open spec fn wf(&self) -> bool {
        self.second < SECONDS_PER_DAY
    }

    /// Seconds since the start of day 0.
    pub open spec fn instant(&self) -> int {
        self.day * 86400 + self.second
    }

    /// A reading that the local clock can give: its day fits in an `i32`.
    pub open spec fn is_reading(&self) -> bool {
        &&& self.wf()
        &&& i32::MIN <= self.day <= i32::MAX
    }

    /// Seconds since the start of day 0, computed exactly.
    pub fn instant_value(&self) -> (r: i128)
        ensures
            r == self.instant(),
    {
        self.day as i128 * 86400 + self.second as i128
    }
}

/// A half-open range of timestamps: `start <= t < end`.
#[derive(Clone, Copy, Debug, PartialEq, Eq, Structural)]
pub struct Window {
    pub start: Timestamp,
    pub end: Timestamp,
}

impl Window {
    pub open spec fn contains(&self, t: Timestamp) -> bool {
        self.start.instant() <= t.instant() < self.end.instant()
    }

    /// Whether `t` falls within the window.
    pub fn includes(&self, t: &Timestamp) -> (r: bool)
        ensures
            r == self.contains(*t),
    {
        let v = t.instant_value();
        self.start.instant_value() <= v && v < self.end.instant_value()
    }
}

/// Local midnight at the start of `day`.
pub open spec fn midnight(day: int) -> Timestamp {
    Timestamp { day: day as i64, second: 0 }
}

/// The window of the day `day_offset` days before the day of `now`.
pub open spec fn window_of(now: Timestamp, day_offset: u32) -> Window {
    Window { start: midnight(now.day - day_offset), end: midnight(now.day - day_offset + 1) }
}

/// Noon of the day `day_offset` days before the day of `now`.
pub open spec fn backdate_of(now: Timestamp, day_offset: u32) -> Timestamp {
    Timestamp { day: (now.day - day_offset) as i64, second: NOON }
}

/// The half-open window from local midnight of the day `day_offset` days
/// before `now` to local midnight of the day after it.
pub fn window_for(now: Timestamp, day_offset: u32) -> (w: Window)
    requires
        now.is_reading(),
    ensures
        w == window_of(now, day_offset),
        w.start.day == now.day - day_offset,
        w.start.second == 0,
        w.end.day == now.day - day_offset + 1,
        w.end.second == 0,
{
    let day = now.day - day_offset as i64;
    Window { start: Timestamp { day, second: 0 }, end: Timestamp { day: day + 1, second: 0 } }
}

/// Local noon of the day `day_offset` days before `now`: the timestamp that a
/// record backdated by `day_offset` days is given.
pub fn backdate(now: Timestamp, day_offset: u32) -> (t: Timestamp)
    requires
        now.is_reading(),
    ensures
        t == backdate_of(now, day_offset),
        t.day == now.day - day_offset,
        t.second == NOON,
{
    Timestamp { day: now.day - day_offset as i64, second: NOON }
}

/// Relies on chrono's `From<SystemTime> for DateTime<Local>` for the current
/// local wall-clock time (it accepts a system clock set before 1970, where
/// `Local::now` would panic), expressed through `Datelike::num_days_from_ce`
/// (an `i32`) and `Timelike::num_seconds_from_midnight` (below 86400).
#[verifier::external_body]
pub(crate) fn local_now() -> (r: Timestamp)
    ensures
        r.is_reading(),
{
    let now = chrono::DateTime::<chrono::Local>::from(std::time::SystemTime::now()).naive_local();
    Timestamp {
        day: chrono::Datelike::num_days_from_ce(&now.date()) as i64,
        second: chrono::Timelike::num_seconds_from_midnight(&now.time()),
    }
}

/// Every window starts before it ends and spans exactly one calendar day,
/// from one midnight to the next.
pub proof fn lemma_window_is_one_day(now: Timestamp, day_offset: u32)
    requires
        now.is_reading(),
    ensures
        window_of(now, day_offset).start.instant() < window_of(now, day_offset).end.instant(),
        window_of(now, day_offset).end.instant() - window_of(now, day_offset).start.instant()
            == SECONDS_PER_DAY,
        window_of(now, day_offset).end.day == window_of(now, day_offset).start.day + 1,
{
}

/// Today's window contains the moment it was computed from.
pub proof fn lemma_today_contains_now(now: Timestamp)
    requires
        now.is_reading(),
    ensures
        window_of(now, 0).contains(now),
{
}

/// A record backdated by `day_offset` days lies strictly inside the window of
/// that offset, away from both of its ends.
pub proof fn lemma_backdate_within_window(now: Timestamp, day_offset: u32)
    requires
        now.is_reading(),
    ensures
        window_of(now, day_offset).contains(backdate_of(now, day_offset)),
        window_of(now, day_offset).start.instant() < backdate_of(now, day_offset).instant(),
        backdate_of(now, day_offset).instant() < window_of(now, day_offset).end.instant(),
{
}

/// A record backdated by `k` days lies in the window of offset `j` exactly
/// when `j == k`.
pub proof fn lemma_backdate_only_in_its_window(now: Timestamp, k: u32, j: u32)
    requires
        now.is_reading(),
    ensures
        window_of(now, j).contains(backdate_of(now, k)) <==> j == k,
{
}

/// Consecutive windows meet with no gap and no overlap: each one ends where the
/// window of the following day begins.
pub proof fn lemma_windows_adjacent(now: Timestamp, day_offset: u32)
    requires
        now.is_reading(),
        day_offset >= 1,
    ensures
        window_of(now, day_offset).end == window_of(now, (day_offset - 1) as u32).start,
{
}

} // verus!
