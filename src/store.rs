//! An in-memory task store with the semantics a persistent one must share:
//! records kept in insertion order, selected by a half-open time range.
use crate::models::{NewTaskWithDate, Task};
use crate::time::{backdate_of, window_of, Timestamp};
use vstd::prelude::*;

verus! {

/// Why a record was not stored.
#[derive(Clone, Copy, Debug, PartialEq, Eq, Structural)]
pub enum StoreError {
    /// The message is empty.
    EmptyMessage,
    /// The record would be updated before it was created.
    UpdatedBeforeCreated,
    /// Every identifier has been given out.
    Full,
}

/// `t` lies in `[start, end)`.
pub open spec fn in_range(t: Timestamp, start: Timestamp, end: Timestamp) -> bool {
    start.instant() <= t.instant() < end.instant()
}

/// The messages of the records of `tasks` created in `[start, end)`, in
/// insertion order.
pub open spec fn messages_in_range(tasks: Seq<Task>, start: Timestamp, end: Timestamp) -> Seq<
    Seq<char>,
>
    decreases tasks.len(),
{
    if tasks.len() == 0 {
        Seq::empty()
    } else {
        let before = messages_in_range(tasks.drop_last(), start, end);
        let last = tasks.last();
        if in_range(last.created_at, start, end) {
            before.push(last.message@)
        } else {
            before
        }
    }
}

/// The store: the records in insertion order, the `i`-th with id `i + 1`.
pub struct TaskLog {
    tasks: Vec<Task>,
}

impl View for TaskLog {
    type V = Seq<Task>;

    closed spec fn view(&self) -> Seq<Task> {
        self.tasks@
    }
}

impl TaskLog {
    pub closed spec fn wf(&self) -> bool {
        &&& self.tasks@.len() <= i32::MAX
        &&& forall|i: int|
            0 <= i < self.tasks@.len() ==> (#[trigger] self.tasks@[i]).id == i + 1
                && self.tasks@[i].wf() && self.tasks@[i].message@.len() > 0
    }

    /// An empty store.
    pub fn new() -> (r: TaskLog)
        ensures
            r.wf(),
            r@.len() == 0,
    {
        TaskLog { tasks: Vec::new() }
    }

    /// The number of records.
    pub fn len(&self) -> (r: usize)
        ensures
            r == self@.len(),
    {
        self.tasks.len()
    }

    /// Stores `new` as the next record and returns it. Nothing is stored on
    /// an error.
    pub fn insert(&mut self, new: NewTaskWithDate) -> (r: Result<Task, StoreError>)
        requires
            old(self).wf(),
        ensures
            final(self).wf(),
            new.message@.len() == 0 ==> r == Err::<Task, StoreError>(StoreError::EmptyMessage),
            new.message@.len() > 0 && new.updated_at.instant() < new.created_at.instant() ==> r
                == Err::<Task, StoreError>(StoreError::UpdatedBeforeCreated),
            new.message@.len() > 0 && new.created_at.instant() <= new.updated_at.instant()
                && old(self)@.len() == i32::MAX ==> r == Err::<Task, StoreError>(StoreError::Full),
            r is Err ==> final(self)@ == old(self)@,
            r is Ok <==> (new.message@.len() > 0 && new.created_at.instant()
                <= new.updated_at.instant() && old(self)@.len() < i32::MAX),
            r matches Ok(t) ==> {
                &&& final(self)@ == old(self)@.push(t)
                &&& t.id == old(self)@.len() + 1
                &&& t.message@ == new.message@
                &&& t.created_at == new.created_at
                &&& t.updated_at == new.updated_at
            },
    {
        if new.message.as_str().is_empty() {
            return Err(StoreError::EmptyMessage);
        }
        if new.updated_at.instant_value() < new.created_at.instant_value() {
            return Err(StoreError::UpdatedBeforeCreated);
        }
        if self.tasks.len() >= i32::MAX as usize {
            return Err(StoreError::Full);
        }
        let id = self.tasks.len() as i32 + 1;
        let stored = Task {
            id,
            created_at: new.created_at,
            updated_at: new.updated_at,
            message: new.message.clone(),
        };
        let task = Task {
            id,
            created_at: new.created_at,
            updated_at: new.updated_at,
            message: new.message,
        };
        self.tasks.push(stored);
        Ok(task)
    }

    /// The messages of the records created in `[start, end)`, in insertion
    /// order. The store is left as it is, so asking again gives the same list.
    pub fn select_in_range(&self, start: Timestamp, end: Timestamp) -> (r: Vec<String>)
        ensures
            r.deep_view() == messages_in_range(self@, start, end),
    {
        let mut r: Vec<String> = Vec::new();
        let mut i: usize = 0;
        while i < self.tasks.len()
            invariant
                i <= self.tasks@.len(),
                r.deep_view() == messages_in_range(self.tasks@.take(i as int), start, end),
            decreases self.tasks@.len() - i,
        {
            let t = &self.tasks[i];
            proof {
                assert(self.tasks@.take(i + 1).drop_last() == self.tasks@.take(i as int));
            }
            if t.created_at.instant_value() >= start.instant_value() && t.created_at.instant_value()
                < end.instant_value() {
                r.push(t.message.clone());
                proof {
                    assert(r.deep_view() =~= messages_in_range(
                        self.tasks@.take(i + 1),
                        start,
                        end,
                    ));
                }
            }
            i += 1;
        }
        proof {
            assert(self.tasks@.take(self.tasks@.len() as int) == self.tasks@);
        }
        r
    }
}

/// Recording one more record adds its message at the end of a selection
/// whose range holds its creation time, and leaves any other selection as it was.
pub proof fn lemma_select_after_insert(tasks: Seq<Task>, t: Task, start: Timestamp, end: Timestamp)
    ensures
        messages_in_range(tasks.push(t), start, end) == if in_range(t.created_at, start, end) {
            messages_in_range(tasks, start, end).push(t.message@)
        } else {
            messages_in_range(tasks, start, end)
        },
{
    assert(tasks.push(t).drop_last() == tasks);
}

/// A record made now is listed, last, among today's records.
pub proof fn lemma_recorded_now_shown_today(tasks: Seq<Task>, t: Task, now: Timestamp)
    requires
        now.is_reading(),
        t.created_at == now,
    ensures
        messages_in_range(tasks.push(t), window_of(now, 0).start, window_of(now, 0).end)
            == messages_in_range(tasks, window_of(now, 0).start, window_of(now, 0).end).push(
            t.message@,
        ),
{
    lemma_select_after_insert(tasks, t, window_of(now, 0).start, window_of(now, 0).end);
}

/// A record backdated by `k` days is listed on the day `k` days back and on
/// no other day.
pub proof fn lemma_backdated_shown_on_its_day_only(
    tasks: Seq<Task>,
    t: Task,
    now: Timestamp,
    k: u32,
    j: u32,
)
    requires
        now.is_reading(),
        t.created_at == backdate_of(now, k),
    ensures
        messages_in_range(tasks.push(t), window_of(now, j).start, window_of(now, j).end) == if j
            == k {
            messages_in_range(tasks, window_of(now, j).start, window_of(now, j).end).push(
                t.message@,
            )
        } else {
            messages_in_range(tasks, window_of(now, j).start, window_of(now, j).end)
        },
{
    lemma_select_after_insert(tasks, t, window_of(now, j).start, window_of(now, j).end);
}

} // verus!
