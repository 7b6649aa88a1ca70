//! Records of the activity log.
use crate::time::Timestamp;
use vstd::prelude::*;

verus! {

/// A stored log entry.
#[derive(Clone, Debug)]
pub struct Task {
    pub id: i32,
    pub created_at: Timestamp,
    pub updated_at: Timestamp,
    pub message: String,
}

impl Task {
    /// A record is never modified before it was created.
    pub open spec fn wf(&self) -> bool {
        self.created_at.instant() <= self.updated_at.instant()
    }
}

/// A message still to be recorded, with no time attached yet.
#[derive(Clone, Debug)]
pub struct NewTask {
    pub message: String,
}

/// A message to be recorded at a given time.
#[derive(Clone, Debug)]
pub struct NewTaskWithDate {
    pub message: String,
    pub created_at: Timestamp,
    pub updated_at: Timestamp,
}

impl NewTask {
    /// The record made at `at`: created and last updated then.
    pub fn dated(self, at: Timestamp) -> (r: NewTaskWithDate)
        ensures
            r.message@ == self.message@,
            r.created_at == at,
            r.updated_at == at,
    {
        NewTaskWithDate { message: self.message, created_at: at, updated_at: at }
    }
}

} // verus!
