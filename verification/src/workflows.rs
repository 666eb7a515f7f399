//! Task completion: the one workflow that touches several models at once.
//! Loading and storing the records is the caller's business; the decision —
//! which ledger entry to write and whether the task resets — is taken here.

use vstd::prelude::*;
use vstd::string::StringExecFns;
use crate::models::ledger::{EntryType, LedgerEntry};
use crate::models::task::Task;
use crate::text::trimmed_of;

verus! {

/// Complete `task` for the kid with id `kid_id` at time `now`: credit the
/// task's value to the kid's ledger with a `Completed: <task name>` note,
/// and, when the task's cadence makes it due, hand back the reset task to be
/// stored.
pub fn complete_task(task: &Task, kid_id: String, now: i64) -> (r: (LedgerEntry, Option<Task>))
    ensures
        r.0.kid_id@ == kid_id@,
        r.0.amount == task.value,
        r.0.entry_type == EntryType::Earned,
        r.0.description@ == trimmed_of("Completed: "@ + task.name@),
        r.0.created_at == now,
        r.0.id@.len() == 36,
        match r.1 {
            Some(t) => task.spec_needs_reset(now as int) && t.last_reset == now && t.updated_at
                == now && t.id == task.id && t.name == task.name && t.description
                == task.description && t.value == task.value && t.cadence == task.cadence
                && t.created_at == task.created_at,
            None => !task.spec_needs_reset(now as int),
        },
{
    let mut description = String::from_str("Completed: ");
    description.append(task.name.as_str());
    let entry = LedgerEntry::earned(kid_id, task.value, description, now);
    if task.needs_reset(now) {
        let updated = Task {
            id: task.id.clone(),
            name: task.name.clone(),
            description: task.description.clone(),
            value: task.value,
            cadence: task.cadence,
            last_reset: now,
            created_at: task.created_at,
            updated_at: now,
        };
        (entry, Some(updated))
    } else {
        (entry, None)
    }
}

} // verus!
