//! The balance table of a ledger: one amount per account.

use vstd::prelude::*;
use crate::account::AccountId;

verus! {

/// What a balance table records for an account, if anything.
pub open spec fn balance_of(table: Map<Seq<char>, u128>, who: Seq<char>) -> Option<u128> {
    if table.dom().contains(who) {
        Some(table[who])
    } else {
        None
    }
}

struct BalanceEntry {
    account: AccountId,
    amount: u128,
}

/// An owned table from accounts to amounts. No account occurs twice, and an
/// entry, once made, is never removed.
pub struct Balances {
    entries: Vec<BalanceEntry>,
}

spec fn distinct_accounts(entries: Seq<BalanceEntry>) -> bool {
    forall|i: int, j: int|
        0 <= i < j < entries.len() ==> (#[trigger] entries[i]).account@ != (
        #[trigger] entries[j]).account@
}

spec fn recorded(entries: Seq<BalanceEntry>, who: Seq<char>) -> bool {
    exists|i: int| 0 <= i < entries.len() && (#[trigger] entries[i]).account@ == who
}

spec fn slot_of(entries: Seq<BalanceEntry>, who: Seq<char>) -> int {
    choose|i: int| 0 <= i < entries.len() && (#[trigger] entries[i]).account@ == who
}

spec fn table_of(entries: Seq<BalanceEntry>) -> Map<Seq<char>, u128> {
    Map::new(
        |who: Seq<char>| recorded(entries, who),
        |who: Seq<char>| entries[slot_of(entries, who)].amount,
    )
}

proof fn lemma_slot(entries: Seq<BalanceEntry>, i: int)
    requires
        distinct_accounts(entries),
        0 <= i < entries.len(),
    ensures
        recorded(entries, entries[i].account@),
        slot_of(entries, entries[i].account@) == i,
        table_of(entries)[entries[i].account@] == entries[i].amount,
{
    let who = entries[i].account@;
    let j = slot_of(entries, who);
    assert(0 <= j < entries.len() && entries[j].account@ == who);
}

impl View for Balances {
    type V = Map<Seq<char>, u128>;

    closed spec fn view(&self) -> Map<Seq<char>, u128> {
        table_of(self.entries@)
    }
}

impl Balances {
    #[verifier::type_invariant]
    spec fn well_formed(self) -> bool {
        distinct_accounts(self.entries@)
    }

    /// An empty table.
    pub fn new() -> (table: Balances)
        ensures
            table@ == Map::<Seq<char>, u128>::empty(),
    {
        let table = Balances { entries: Vec::new() };
        assert(table@ =~= Map::<Seq<char>, u128>::empty());
        table
    }

    fn find(&self, who: &AccountId) -> (found: Option<usize>)
        ensures
            match found {
                Some(i) => i < self.entries@.len() && self.entries@[i as int].account@ == who@,
                None => !recorded(self.entries@, who@),
            },
    {
        let mut i: usize = 0;
        while i < self.entries.len()
            invariant
                i <= self.entries@.len(),
                forall|j: int| 0 <= j < i ==> (#[trigger] self.entries@[j]).account@ != who@,
            decreases self.entries@.len() - i,
        {
            if self.entries[i].account.same(who) {
                return Some(i);
            }
            i += 1;
        }
        None
    }

    /// The amount recorded for `who`, if the account has a record.
    pub fn get(&self, who: &AccountId) -> (amount: Option<u128>)
        ensures
            amount == balance_of(self@, who@),
    {
        proof {
            use_type_invariant(self);
        }
        match self.find(who) {
            Some(i) => {
                proof {
                    lemma_slot(self.entries@, i as int);
                }
                Some(self.entries[i].amount)
            },
            None => None,
        }
    }

    /// Records `amount` for `who`, replacing what was recorded before.
    pub fn insert(&mut self, who: &AccountId, amount: u128)
        ensures
            final(self)@ == old(self)@.insert(who@, amount),
    {
        proof {
            use_type_invariant(&*self);
        }
        let found = self.find(who);
        let mut entries: Vec<BalanceEntry> = Vec::new();
        std::mem::swap(&mut entries, &mut self.entries);
        let ghost before = entries@;
        match found {
            Some(i) => {
                entries.set(i, BalanceEntry { account: who.clone(), amount });
            },
            None => {
                entries.push(BalanceEntry { account: who.clone(), amount });
            },
        }
        proof {
            let after = entries@;
            assert(distinct_accounts(after)) by {
                assert forall|a: int, b: int| 0 <= a < b < after.len() implies (
                #[trigger] after[a]).account@ != (#[trigger] after[b]).account@ by {
                    if b < before.len() {
                        assert(before[a].account@ != before[b].account@);
                    } else {
                        assert(before[a].account@ == after[a].account@);
                    }
                }
            }
            assert(table_of(after) =~= table_of(before).insert(who@, amount)) by {
                assert forall|k: Seq<char>| recorded(after, k) <==> (recorded(before, k) || k
                    == who@) by {
                    if recorded(after, k) {
                        let s = slot_of(after, k);
                        if s < before.len() {
                            assert(before[s].account@ == k);
                        }
                    }
                    if recorded(before, k) {
                        let s = slot_of(before, k);
                        assert(after[s].account@ == k);
                    }
                    if k == who@ {
                        match found {
                            Some(i) => {
                                assert(after[i as int].account@ == k);
                            },
                            None => {
                                assert(after[before.len() as int].account@ == k);
                            },
                        }
                    }
                }
                assert forall|k: Seq<char>| recorded(after, k) implies table_of(after)[k]
                    == table_of(before).insert(who@, amount)[k] by {
                    let s = slot_of(after, k);
                    lemma_slot(after, s);
                    if k != who@ {
                        assert(before[s].account@ == k);
                        lemma_slot(before, s);
                    } else {
                        match found {
                            Some(i) => {
                                lemma_slot(after, i as int);
                            },
                            None => {
                                lemma_slot(after, before.len() as int);
                            },
                        }
                    }
                }
            }
        }
        self.entries = entries;
    }
}

} // verus!
