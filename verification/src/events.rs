//! The events broadcast to live dashboard clients when data changes.
//! The channel that carries them is the caller's business.

use vstd::prelude::*;

verus! {

/// A data change worth telling connected clients about.
#[derive(Clone, Debug)]
pub enum DataEvent {
    /// A kid was created.
    KidCreated { id: String, name: String },
    /// A kid was deleted.
    KidDeleted { id: String },
    /// A task was created.
    TaskCreated { id: String, name: String },
    /// A task was updated.
    TaskUpdated { id: String, name: String },
    /// A task was deleted.
    TaskDeleted { id: String },
    /// A task was completed, creating a ledger entry.
    TaskCompleted { kid_id: String, task_id: String, amount: String },
    /// A balance was manually adjusted.
    BalanceAdjusted { kid_id: String, amount: String, description: String },
}

} // verus!
