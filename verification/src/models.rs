//! The domain models of the allowance tracker: users, kids, tasks and the
//! ledger.  They are plain data with validation rules; persistence is an
//! external collaborator.

pub mod kid;
pub mod ledger;
pub mod task;
pub mod user;
