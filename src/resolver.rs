//! Turning the command-line flags into exactly one intent.
use crate::time::{backdate, backdate_of, Timestamp};
use vstd::prelude::*;

verus! {

/// How the day-offset flag was given.
#[derive(Clone, Copy, Debug, PartialEq, Eq, Structural)]
pub enum OffsetFlag {
    /// The flag was not given.
    Absent,
    /// The flag was given with no number.
    Bare,
    /// The flag was given with a number of days.
    Value(u32),
}

/// The flags of one invocation.
#[derive(Clone, Debug)]
pub struct Flags {
    pub add_message: Option<String>,
    pub day_offset: OffsetFlag,
    pub show_today: bool,
    pub use_summarizer: bool,
}

/// What one invocation is to do.
#[derive(Clone, Debug)]
pub enum QueryIntent {
    /// Record `message`, at `occurred_at` or, when that is absent, now.
    Add { message: String, occurred_at: Option<Timestamp> },
    /// Show what was recorded on the day `day_offset` days back.
    ShowWindow { day_offset: u32, summarize: bool },
    /// Nothing recognisable was asked for.
    NoOp,
}

/// The number of days an offset flag stands for: one when given bare.
pub open spec fn offset_days(f: OffsetFlag) -> Option<u32> {
    match f {
        OffsetFlag::Absent => None,
        OffsetFlag::Bare => Some(1),
        OffsetFlag::Value(n) => Some(n),
    }
}

/// `r` is the intent that `flags` resolve to when the clock reads `now`:
/// adding wins over showing today, which wins over showing a past day.
pub open spec fn resolves_to(flags: Flags, now: Timestamp, r: QueryIntent) -> bool {
    match flags.add_message {
        Some(m) => {
            &&& r matches QueryIntent::Add { message, occurred_at }
            &&& message@ == m@
            &&& occurred_at == match offset_days(flags.day_offset) {
                Some(n) => Some(backdate_of(now, n)),
                None => None,
            }
        },
        None => if flags.show_today {
            r matches QueryIntent::ShowWindow { day_offset, summarize }
                && day_offset == 0 && summarize == flags.use_summarizer
        } else {
            match offset_days(flags.day_offset) {
                Some(n) => r matches QueryIntent::ShowWindow { day_offset, summarize }
                    && day_offset == n && summarize == flags.use_summarizer,
                None => r is NoOp,
            }
        },
    }
}

/// The number of days that an offset flag stands for.
pub fn offset_value(f: OffsetFlag) -> (r: Option<u32>)
    ensures
        r == offset_days(f),
{
    match f {
        OffsetFlag::Absent => None,
        OffsetFlag::Bare => Some(1),
        OffsetFlag::Value(n) => Some(n),
    }
}

/// Resolves `flags` into one intent, with `now` the clock reading that a
/// backdated record is counted from. Never fails: no intent is `NoOp`.
pub fn determine_query_mode(flags: &Flags, now: Timestamp) -> (r: QueryIntent)
    requires
        now.is_reading(),
    ensures
        resolves_to(*flags, now, r),
{
    match &flags.add_message {
        Some(m) => {
            let occurred_at = match offset_value(flags.day_offset) {
                Some(n) => Some(backdate(now, n)),
                None => None,
            };
            QueryIntent::Add { message: m.clone(), occurred_at }
        },
        None => {
            if flags.show_today {
                QueryIntent::ShowWindow { day_offset: 0, summarize: flags.use_summarizer }
            } else {
                match offset_value(flags.day_offset) {
                    Some(n) => QueryIntent::ShowWindow { day_offset: n, summarize: flags.use_summarizer },
                    None => QueryIntent::NoOp,
                }
            }
        },
    }
}

/// Whenever a message to add is given, the intent is to add it, whatever
/// else was asked for.
pub proof fn lemma_add_wins(flags: Flags, now: Timestamp, r: QueryIntent)
    requires
        flags.add_message is Some,
        resolves_to(flags, now, r),
    ensures
        r is Add,
        r->Add_message@ == flags.add_message->0@,
{
}

/// An offset flag given bare, with nothing else that takes precedence,
/// shows the previous day.
pub proof fn lemma_bare_offset_is_one_day(flags: Flags, now: Timestamp, r: QueryIntent)
    requires
        flags.add_message is None,
        !flags.show_today,
        flags.day_offset == OffsetFlag::Bare,
        resolves_to(flags, now, r),
    ensures
        r matches QueryIntent::ShowWindow { day_offset, .. } && day_offset == 1,
{
}

/// Showing an offset of zero days is the same as showing today.
pub proof fn lemma_zero_offset_is_today(flags: Flags, now: Timestamp, r1: QueryIntent, r2: QueryIntent)
    requires
        flags.add_message is None,
        !flags.show_today,
        flags.day_offset == OffsetFlag::Value(0),
        resolves_to(flags, now, r1),
        resolves_to(Flags { show_today: true, ..flags }, now, r2),
    ensures
        r1 matches QueryIntent::ShowWindow { day_offset: d1, summarize: s1 }
            && r2 matches QueryIntent::ShowWindow { day_offset: d2, summarize: s2 }
            && d1 == d2 && s1 == s2,
{
}

/// With no flag set, there is no intent.
pub proof fn lemma_no_flags_no_intent(flags: Flags, now: Timestamp, r: QueryIntent)
    requires
        flags.add_message is None,
        !flags.show_today,
        flags.day_offset == OffsetFlag::Absent,
        resolves_to(flags, now, r),
    ensures
        r is NoOp,
{
}

} // verus!
