//! Kid records: the children whose chores and earnings the tracker follows.

use vstd::prelude::*;
use crate::error::Error;
use crate::text::trimmed_of;

verus! {

/// A kid record.
#[derive(Clone, Debug)]
pub struct Kid {
    pub id: String,
    /// Display name, stored trimmed.
    pub name: String,
    /// Owner of this record: a user id, or `admin` for admin-created ones.
    pub owner_id: String,
    /// Creation time as a Unix timestamp in seconds.
    pub created_at: i64,
    /// Last-update time as a Unix timestamp in seconds.
    pub updated_at: i64,
}

impl Kid {
    /// Create a kid record with a trimmed name; refuse a blank name.
    pub fn new(name: String, owner_id: String, now: i64) -> (r: Result<Kid, Error>)
        ensures
            match r {
                Ok(k) => trimmed_of(name@).len() != 0 && k.name@ == trimmed_of(name@)
                    && k.owner_id@ == owner_id@ && k.created_at == now && k.updated_at == now
                    && k.id@.len() == 36,
                Err(e) => trimmed_of(name@).len() == 0 && (e matches Error::Validation(m) && m@
                    == "Kid name cannot be empty"@),
            },
    {
        let kid = Kid {
            id: crate::fresh_uuid(),
            name: name.as_str().trim().to_owned(),
            owner_id,
            created_at: now,
            updated_at: now,
        };
        match kid.validate() {
            Ok(()) => Ok(kid),
            Err(e) => Err(e),
        }
    }

    /// Refuse a record whose name is blank.
    pub fn validate(&self) -> (r: Result<(), Error>)
        ensures
            match r {
                Ok(()) => trimmed_of(self.name@).len() != 0,
                Err(e) => trimmed_of(self.name@).len() == 0 && (e matches Error::Validation(m)
                    && m@ == "Kid name cannot be empty"@),
            },
    {
        if self.name.as_str().trim().is_empty() {
            return Err(Error::Validation("Kid name cannot be empty".to_owned()));
        }
        Ok(())
    }
}

} // verus!
