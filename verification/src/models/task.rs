//! Task records: chores with a value in cents and a completion cadence.

use vstd::prelude::*;
use crate::error::Error;
use crate::text::trimmed_of;

verus! {

/// Seconds in a day, the reset period of daily tasks.
pub const SECONDS_PER_DAY: i64 = 86400;

/// Seconds in a week, the reset period of weekly tasks.
pub const SECONDS_PER_WEEK: i64 = 604800;

/// How often a task can be completed again.
#[derive(Clone, Copy, Debug, PartialEq, Eq, Structural)]
pub enum Cadence {
    Daily,
    Weekly,
    OneTime,
}

/// A chore that can be completed for a reward.
#[derive(Clone, Debug)]
pub struct Task {
    pub id: String,
    /// Display name, stored trimmed.
    pub name: String,
    /// Longer description, stored trimmed.
    pub description: String,
    /// Reward in cents; always positive.
    pub value: i64,
    pub cadence: Cadence,
    /// When the task last became available again, as a Unix timestamp.
    pub last_reset: i64,
    /// Creation time as a Unix timestamp in seconds.
    pub created_at: i64,
    /// Last-update time as a Unix timestamp in seconds.
    pub updated_at: i64,
}

/// The first validation failure a task runs into, if any: the name must not
/// be blank and the value must be positive.
pub open spec fn task_error(name: Seq<char>, value: int) -> Option<Seq<char>> {
    if trimmed_of(name).len() == 0 {
        Some("Task name cannot be empty"@)
    } else if value <= 0 {
        Some("Task value must be positive"@)
    } else {
        None
    }
}

impl Task {
    /// Create a task with trimmed name and description; refuse a blank name
    /// or a non-positive value.
    pub fn new(name: String, description: String, value: i64, cadence: Cadence, now: i64) -> (r:
        Result<Task, Error>)
        ensures
            match r {
                Ok(t) => task_error(name@, value as int) is None && t.name@ == trimmed_of(name@)
                    && t.description@ == trimmed_of(description@) && t.value == value && t.cadence
                    == cadence && t.last_reset == now && t.created_at == now && t.updated_at == now
                    && t.id@.len() == 36,
                Err(e) => e matches Error::Validation(m) && task_error(name@, value as int) == Some(
                    m@,
                ),
            },
    {
        let task = Task {
            id: crate::fresh_uuid(),
            name: name.as_str().trim().to_owned(),
            description: description.as_str().trim().to_owned(),
            value,
            cadence,
            last_reset: now,
            created_at: now,
            updated_at: now,
        };
        match task.validate() {
            Ok(()) => Ok(task),
            Err(e) => Err(e),
        }
    }

    /// Check the task against its rules; see [`task_error`].
    pub fn validate(&self) -> (r: Result<(), Error>)
        ensures
            match r {
                Ok(()) => task_error(self.name@, self.value as int) is None,
                Err(e) => e matches Error::Validation(m) && task_error(
                    self.name@,
                    self.value as int,
                ) == Some(m@),
            },
    {
        if self.name.as_str().trim().is_empty() {
            return Err(Error::Validation("Task name cannot be empty".to_owned()));
        }
        if self.value <= 0 {
            return Err(Error::Validation("Task value must be positive".to_owned()));
        }
        Ok(())
    }

    /// Whether the task is due to become available again at `now`: one day
    /// after the last reset for daily tasks, one week for weekly ones, never
    /// for one-time tasks.
    pub open spec fn spec_needs_reset(self, now: int) -> bool {
        match self.cadence {
            Cadence::OneTime => false,
            Cadence::Daily => now >= self.last_reset + SECONDS_PER_DAY,
            Cadence::Weekly => now >= self.last_reset + SECONDS_PER_WEEK,
        }
    }

    /// Decide whether the task is due for a reset at `now`.
    pub fn needs_reset(&self, now: i64) -> (r: bool)
        ensures
            r == self.spec_needs_reset(now as int),
    {
        match self.cadence {
            Cadence::OneTime => false,
            Cadence::Daily => now as i128 >= self.last_reset as i128 + SECONDS_PER_DAY as i128,
            Cadence::Weekly => now as i128 >= self.last_reset as i128 + SECONDS_PER_WEEK as i128,
        }
    }

    /// Make the task available again as of `now`.
    pub fn reset(&mut self, now: i64)
        ensures
            final(self).last_reset == now,
            final(self).updated_at == now,
            final(self).id == old(self).id,
            final(self).name == old(self).name,
            final(self).description == old(self).description,
            final(self).value == old(self).value,
            final(self).cadence == old(self).cadence,
            final(self).created_at == old(self).created_at,
    {
        self.last_reset = now;
        self.updated_at = now;
    }
}

} // verus!
