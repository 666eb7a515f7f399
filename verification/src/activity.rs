//! Recent activity: the newest ledger entries, ordered by creation time and
//! cut to a limit.  Collecting the entries from the store is the caller's
//! business; the ordering and the cut are taken here.

use vstd::prelude::*;
use crate::models::ledger::LedgerEntry;

verus! {

broadcast use vstd::seq_lib::group_to_multiset_ensures;

/// Newest-first ordering by creation time.
pub open spec fn sorted_newest_first(s: Seq<LedgerEntry>) -> bool {
    forall|i: int, j: int| 0 <= i <= j < s.len() ==> s[i].created_at >= s[j].created_at
}

/// Index of a newest entry of a nonempty vector.
fn index_of_newest(entries: &Vec<LedgerEntry>) -> (r: usize)
    requires
        entries@.len() > 0,
    ensures
        r < entries@.len(),
        forall|k: int|
            0 <= k < entries@.len() ==> entries@[r as int].created_at >= entries@[k].created_at,
{
    let mut best: usize = 0;
    let mut i: usize = 1;
    while i < entries.len()
        invariant
            0 < i <= entries@.len(),
            best < i,
            forall|k: int| 0 <= k < i ==> entries@[best as int].created_at >= entries@[k].created_at,
        decreases entries@.len() - i,
    {
        if entries[i].created_at > entries[best].created_at {
            best = i;
        }
        i = i + 1;
    }
    best
}

/// Reorder the entries newest first, keeping exactly the same entries.
pub fn sort_entries_newest_first(entries: Vec<LedgerEntry>) -> (r: Vec<LedgerEntry>)
    ensures
        sorted_newest_first(r@),
        r@.to_multiset() == entries@.to_multiset(),
        r@.len() == entries@.len(),
{
    let mut remaining = entries;
    let mut sorted: Vec<LedgerEntry> = Vec::new();
    while remaining.len() > 0
        invariant
            sorted_newest_first(sorted@),
            forall|i: int, j: int|
                0 <= i < sorted@.len() && 0 <= j < remaining@.len() ==> sorted@[i].created_at
                    >= remaining@[j].created_at,
            sorted@.to_multiset().add(remaining@.to_multiset()) == entries@.to_multiset(),
            sorted@.len() + remaining@.len() == entries@.len(),
        decreases remaining@.len(),
    {
        let m = index_of_newest(&remaining);
        let ghost rem_before = remaining@;
        let ghost sorted_before = sorted@;
        let newest = remaining.remove(m);
        sorted.push(newest);
        proof {
            assert(remaining@ == rem_before.remove(m as int));
            assert(sorted@ == sorted_before.push(newest));
            assert(sorted@.to_multiset().add(remaining@.to_multiset()) =~= sorted_before.to_multiset().add(rem_before.to_multiset()));
            assert forall|i: int, j: int|
                0 <= i < sorted@.len() && 0 <= j < remaining@.len() implies sorted@[i].created_at
                >= remaining@[j].created_at by {
                let j0: int = if j < m { j } else { j + 1 };
                assert(remaining@[j] == rem_before[j0]);
                if i < sorted_before.len() {
                    assert(sorted_before[i].created_at >= rem_before[j0].created_at);
                } else {
                    assert(newest.created_at >= rem_before[j0].created_at);
                }
            }
            assert forall|i: int, j: int|
                0 <= i <= j < sorted@.len() implies sorted@[i].created_at >= sorted@[j].created_at by {
                if j < sorted_before.len() {
                    assert(sorted_before[i].created_at >= sorted_before[j].created_at);
                } else if i < sorted_before.len() {
                    assert(sorted_before[i].created_at >= rem_before[m as int].created_at);
                }
            }
        }
    }
    sorted
}

/// The `limit` most recent of the given ledger entries, newest first: some
/// newest-first reordering of the entries, cut after `limit` of them.
pub fn get_recent_activity(entries: Vec<LedgerEntry>, limit: usize) -> (r: Vec<LedgerEntry>)
    ensures
        sorted_newest_first(r@),
        r@.len() == (if limit <= entries@.len() {
            limit as int
        } else {
            entries@.len() as int
        }),
        exists|s: Seq<LedgerEntry>|
            {
                &&& #[trigger] sorted_newest_first(s)
                &&& s.to_multiset() == entries@.to_multiset()
                &&& r@ == s.take(r@.len() as int)
            },
{
    let ghost all = entries@;
    let mut sorted = sort_entries_newest_first(entries);
    let ghost whole = sorted@;
    sorted.truncate(limit);
    proof {
        if limit <= whole.len() {
            assert(sorted@ == whole.subrange(0, limit as int));
        } else {
            assert(sorted@ == whole);
            assert(whole.take(whole.len() as int) =~= whole);
        }
        assert(sorted_newest_first(sorted@));
        assert(sorted_newest_first(whole) && whole.to_multiset() == all.to_multiset() && sorted@
            == whole.take(sorted@.len() as int));
    }
    sorted
}

} // verus!
