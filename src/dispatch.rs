//! Driving one resolved intent: what to store or look up, and what to print.
use crate::models::{NewTask, NewTaskWithDate};
use crate::resolver::{determine_query_mode, resolves_to, Flags, OffsetFlag, QueryIntent, offset_days};
use crate::text::{confirmation, int_text, no_intent_text, NO_INTENT_TEXT};
use crate::time::{local_now, window_for, window_of, Timestamp, Window};
use vstd::prelude::*;

verus! {

/// The one step an invocation takes.
#[derive(Clone, Debug)]
pub enum Action {
    /// Store `task`, then print `confirmation`.
    Insert { task: NewTaskWithDate, confirmation: String },
    /// Look up the records created within `window` and print them, through
    /// the summarizer when `summarize` is set.
    Show { window: Window, summarize: bool },
    /// Print `guidance` and end unsuccessfully.
    NoIntent { guidance: String },
}

/// `a` is the step that carries out `intent` when the clock reads `now`.
pub open spec fn dispatches_to(intent: QueryIntent, now: Timestamp, a: Action) -> bool {
    match intent {
        QueryIntent::Add { message, occurred_at } => {
            &&& a matches Action::Insert { task, confirmation }
            &&& task.message@ == message@
            &&& match occurred_at {
                None => {
                    &&& task.created_at == now
                    &&& task.updated_at == now
                    &&& confirmation@ == "You did: "@ + message@
                },
                Some(at) => {
                    &&& task.created_at == at
                    &&& task.updated_at == at
                    &&& confirmation@ == "You did "@ + int_text(now.day - at.day) + " days ago: "@
                        + message@
                },
            }
        },
        QueryIntent::ShowWindow { day_offset, summarize } => {
            &&& a matches Action::Show { window, summarize: s }
            &&& window == window_of(now, day_offset)
            &&& s == summarize
        },
        QueryIntent::NoOp => a matches Action::NoIntent { guidance } && guidance@ == NO_INTENT_TEXT@,
    }
}

/// The step that carries out `intent`, with `now` the clock reading that a
/// record without a time is dated by and that windows are counted from.
pub fn handle_query_mode(intent: QueryIntent, now: Timestamp) -> (a: Action)
    requires
        now.is_reading(),
    ensures
        dispatches_to(intent, now, a),
{
    match intent {
        QueryIntent::Add { message, occurred_at } => {
            let (at, days_back) = match occurred_at {
                None => (now, None),
                Some(at) => (at, Some(now.day as i128 - at.day as i128)),
            };
            let confirmation = confirmation(&message, days_back);
            let task = NewTask { message }.dated(at);
            Action::Insert { task, confirmation }
        },
        QueryIntent::ShowWindow { day_offset, summarize } => {
            Action::Show { window: window_for(now, day_offset), summarize }
        },
        QueryIntent::NoOp => Action::NoIntent { guidance: no_intent_text() },
    }
}

/// Reads the local clock once and decides the step for `flags`: the intent
/// they resolve to, carried out at that one reading.
pub fn plan(flags: &Flags) -> (a: Action)
    ensures
        exists|now: Timestamp, intent: QueryIntent|
            now.is_reading() && resolves_to(*flags, now, intent) && dispatches_to(intent, now, a),
{
    let now = local_now();
    let intent = determine_query_mode(flags, now);
    handle_query_mode(intent, now)
}

/// With no flag set, the step is to print the guidance and end unsuccessfully,
/// which no listing of records, not even an empty one, is mistaken for.
pub proof fn lemma_no_flags_give_guidance(flags: Flags, now: Timestamp, intent: QueryIntent, a: Action)
    requires
        flags.add_message is None,
        !flags.show_today,
        flags.day_offset == OffsetFlag::Absent,
        resolves_to(flags, now, intent),
        dispatches_to(intent, now, a),
    ensures
        a matches Action::NoIntent { guidance } && guidance@ == NO_INTENT_TEXT@,
        a !is Show,
{
}

/// A message recorded with no offset is dated now, inside today's window.
pub proof fn lemma_added_now_falls_today(flags: Flags, now: Timestamp, intent: QueryIntent, a: Action)
    requires
        flags.add_message is Some,
        flags.day_offset == OffsetFlag::Absent,
        now.is_reading(),
        resolves_to(flags, now, intent),
        dispatches_to(intent, now, a),
    ensures
        a matches Action::Insert { task, .. } && window_of(now, 0).contains(task.created_at)
            && task.message@ == flags.add_message->0@,
{
}

/// A message recorded with an offset of `n` days is dated within the window of
/// that offset, and within no other.
pub proof fn lemma_added_backdated_falls_on_its_day(
    flags: Flags,
    now: Timestamp,
    intent: QueryIntent,
    a: Action,
    n: u32,
    j: u32,
)
    requires
        flags.add_message is Some,
        offset_days(flags.day_offset) == Some(n),
        now.is_reading(),
        resolves_to(flags, now, intent),
        dispatches_to(intent, now, a),
    ensures
        a matches Action::Insert { task, .. } && (window_of(now, j).contains(task.created_at)
            <==> j == n),
{
}

} // verus!
