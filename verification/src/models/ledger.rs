//! The ledger: earnings and adjustments per kid, and the balance they sum to.

use vstd::prelude::*;
use crate::text::trimmed_of;

verus! {

/// Why an amount was credited or debited.
#[derive(Clone, Copy, Debug, PartialEq, Eq, Structural)]
pub enum EntryType {
    /// Earned by completing a task.
    Earned,
    /// Manually adjusted.
    Adjusted,
}

/// One ledger line: a signed amount in cents for one kid.
#[derive(Clone, Debug)]
pub struct LedgerEntry {
    pub id: String,
    pub kid_id: String,
    /// Signed amount in cents.
    pub amount: i64,
    pub entry_type: EntryType,
    /// Reason, stored trimmed.
    pub description: String,
    /// Creation time as a Unix timestamp in seconds.
    pub created_at: i64,
}

impl LedgerEntry {
    /// Record an amount for a kid with a trimmed description.
    pub fn new(kid_id: String, amount: i64, entry_type: EntryType, description: String, now: i64) -> (r:
        LedgerEntry)
        ensures
            r.kid_id@ == kid_id@,
            r.amount == amount,
            r.entry_type == entry_type,
            r.description@ == trimmed_of(description@),
            r.created_at == now,
            r.id@.len() == 36,
    {
        LedgerEntry {
            id: crate::fresh_uuid(),
            kid_id,
            amount,
            entry_type,
            description: description.as_str().trim().to_owned(),
            created_at: now,
        }
    }

    /// Record an earning.
    pub fn earned(kid_id: String, amount: i64, description: String, now: i64) -> (r: LedgerEntry)
        ensures
            r.kid_id@ == kid_id@,
            r.amount == amount,
            r.entry_type == EntryType::Earned,
            r.description@ == trimmed_of(description@),
            r.created_at == now,
            r.id@.len() == 36,
    {
        LedgerEntry::new(kid_id, amount, EntryType::Earned, description, now)
    }

    /// Record a manual adjustment.
    pub fn adjusted(kid_id: String, amount: i64, description: String, now: i64) -> (r: LedgerEntry)
        ensures
            r.kid_id@ == kid_id@,
            r.amount == amount,
            r.entry_type == EntryType::Adjusted,
            r.description@ == trimmed_of(description@),
            r.created_at == now,
            r.id@.len() == 36,
    {
        LedgerEntry::new(kid_id, amount, EntryType::Adjusted, description, now)
    }
}

/// The sum of the amounts of a sequence of entries, in cents.
pub open spec fn sum_amounts(s: Seq<LedgerEntry>) -> int
    decreases s.len(),
{
    if s.len() == 0 {
        0
    } else {
        sum_amounts(s.drop_last()) + s.last().amount
    }
}

/// A kid's ledger: the entries together with the balance they sum to.
#[derive(Clone, Debug)]
pub struct Ledger {
    pub kid_id: String,
    /// Balance in cents: always the sum of the entries' amounts.
    pub balance: i64,
    pub entries: Vec<LedgerEntry>,
}

impl Ledger {
    /// Assemble a ledger from its entries, computing the balance.
    pub fn new(kid_id: String, entries: Vec<LedgerEntry>) -> (r: Ledger)
        requires
            forall|i: int|
                0 <= i <= entries@.len() ==> i64::MIN <= #[trigger] sum_amounts(entries@.take(i))
                    <= i64::MAX,
        ensures
            r.kid_id@ == kid_id@,
            r.balance == sum_amounts(entries@),
            r.entries == entries,
    {
        let balance = Ledger::calculate_balance(entries.as_slice());
        Ledger { kid_id, balance, entries }
    }

    /// The sum of the entries' amounts, in cents.
    pub fn calculate_balance(entries: &[LedgerEntry]) -> (r: i64)
        requires
            forall|i: int|
                0 <= i <= entries@.len() ==> i64::MIN <= #[trigger] sum_amounts(entries@.take(i))
                    <= i64::MAX,
        ensures
            r == sum_amounts(entries@),
    {
        let n = entries.len();
        let mut total: i64 = 0;
        let mut i: usize = 0;
        proof {
            assert(entries@.take(0) =~= Seq::<LedgerEntry>::empty());
        }
        while i < n
            invariant
                0 <= i <= n,
                n == entries@.len(),
                total == sum_amounts(entries@.take(i as int)),
                forall|k: int|
                    0 <= k <= entries@.len() ==> i64::MIN <= #[trigger] sum_amounts(
                        entries@.take(k),
                    ) <= i64::MAX,
            decreases n - i,
        {
            proof {
                assert(entries@.take(i + 1).drop_last() =~= entries@.take(i as int));
                assert(entries@.take(i + 1).last() == entries@[i as int]);
                assert(sum_amounts(entries@.take(i + 1)) == sum_amounts(entries@.take(i as int))
                    + entries@[i as int].amount);
            }
            total = total + entries[i].amount;
            i = i + 1;
        }
        proof {
            assert(entries@.take(n as int) =~= entries@);
        }
        total
    }
}

} // verus!
