//! The position table of a staking service: one amount per pair of
//! beneficiary and validator.

use vstd::prelude::*;
use crate::account::AccountId;

verus! {

/// The key of a position: the beneficiary's name, then the validator's.
pub type PairView = (Seq<char>, Seq<char>);

/// What a position table records for a pair, if anything.
pub open spec fn position_of(table: Map<PairView, u128>, pair: PairView) -> Option<u128> {
    if table.dom().contains(pair) {
        Some(table[pair])
    } else {
        None
    }
}

struct Position {
    beneficiary: AccountId,
    validator: AccountId,
    amount: u128,
}

impl Position {
    spec fn pair(self) -> PairView {
        (self.beneficiary@, self.validator@)
    }
}

/// An owned table from pairs to amounts. No pair occurs twice, and a
/// position, once made, is never removed.
pub struct Positions {
    entries: Vec<Position>,
}

spec fn distinct_pairs(entries: Seq<Position>) -> bool {
    forall|i: int, j: int|
        0 <= i < j < entries.len() ==> (#[trigger] entries[i]).pair() != (
        #[trigger] entries[j]).pair()
}

spec fn recorded(entries: Seq<Position>, pair: PairView) -> bool {
    exists|i: int| 0 <= i < entries.len() && (#[trigger] entries[i]).pair() == pair
}

spec fn slot_of(entries: Seq<Position>, pair: PairView) -> int {
    choose|i: int| 0 <= i < entries.len() && (#[trigger] entries[i]).pair() == pair
}

spec fn table_of(entries: Seq<Position>) -> Map<PairView, u128> {
    Map::new(
        |pair: PairView| recorded(entries, pair),
        |pair: PairView| entries[slot_of(entries, pair)].amount,
    )
}

proof fn lemma_slot(entries: Seq<Position>, i: int)
    requires
        distinct_pairs(entries),
        0 <= i < entries.len(),
    ensures
        recorded(entries, entries[i].pair()),
        slot_of(entries, entries[i].pair()) == i,
        table_of(entries)[entries[i].pair()] == entries[i].amount,
{
    let pair = entries[i].pair();
    let j = slot_of(entries, pair);
    assert(0 <= j < entries.len() && entries[j].pair() == pair);
}

impl View for Positions {
    type V = Map<PairView, u128>;

    closed spec fn view(&self) -> Map<PairView, u128> {
        table_of(self.entries@)
    }
}

impl Positions {
    #[verifier::type_invariant]
    spec fn well_formed(self) -> bool {
        distinct_pairs(self.entries@)
    }

    /// An empty table.
    pub fn new() -> (table: Positions)
        ensures
            table@ == Map::<PairView, u128>::empty(),
    {
        let table = Positions { entries: Vec::new() };
        assert(table@ =~= Map::<PairView, u128>::empty());
        table
    }

    fn find(&self, beneficiary: &AccountId, validator: &AccountId) -> (found: Option<usize>)
        ensures
            match found {
                Some(i) => i < self.entries@.len() && self.entries@[i as int].pair() == (beneficiary@, validator@),
                None => !recorded(self.entries@, (beneficiary@, validator@)),
            },
    {
        let mut i: usize = 0;
        while i < self.entries.len()
            invariant
                i <= self.entries@.len(),
                forall|j: int| 0 <= j < i ==> (#[trigger] self.entries@[j]).pair() != (beneficiary@, validator@),
            decreases self.entries@.len() - i,
        {
            if self.entries[i].beneficiary.same(beneficiary) && self.entries[i].validator.same(
                validator,
            ) {
                return Some(i);
            }
            i += 1;
        }
        None
    }

    /// The amount recorded for the pair, if it has a position.
    pub fn get(&self, beneficiary: &AccountId, validator: &AccountId) -> (amount: Option<u128>)
        ensures
            amount == position_of(self@, (beneficiary@, validator@)),
    {
        proof {
            use_type_invariant(self);
        }
        match self.find(beneficiary, validator) {
            Some(i) => {
                proof {
                    lemma_slot(self.entries@, i as int);
                }
                Some(self.entries[i].amount)
            },
            None => None,
        }
    }

    /// Records `amount` for the pair, replacing what was recorded before.
    pub fn insert(&mut self, beneficiary: &AccountId, validator: &AccountId, amount: u128)
        ensures
            final(self)@ == old(self)@.insert((beneficiary@, validator@), amount),
    {
        proof {
            use_type_invariant(&*self);
        }
        let found = self.find(beneficiary, validator);
        let mut entries: Vec<Position> = Vec::new();
        std::mem::swap(&mut entries, &mut self.entries);
        let ghost before = entries@;
        match found {
            Some(i) => {
                entries.set(i, Position {
                    beneficiary: beneficiary.clone(),
                    validator: validator.clone(),
                    amount,
                });
            },
            None => {
                entries.push(Position {
                    beneficiary: beneficiary.clone(),
                    validator: validator.clone(),
                    amount,
                });
            },
        }
        proof {
            let after = entries@;
            assert(distinct_pairs(after)) by {
                assert forall|a: int, b: int| 0 <= a < b < after.len() implies (
                #[trigger] after[a]).pair() != (#[trigger] after[b]).pair() by {
                    if b < before.len() {
                        assert(before[a].pair() != before[b].pair());
                    } else {
                        assert(before[a].pair() == after[a].pair());
                    }
                }
            }
            assert(table_of(after) =~= table_of(before).insert((beneficiary@, validator@), amount)) by {
                assert forall|k: PairView| recorded(after, k) <==> (recorded(before, k) || k
                    == (beneficiary@, validator@)) by {
                    if recorded(after, k) {
                        let s = slot_of(after, k);
                        if s < before.len() {
                            assert(before[s].pair() == k);
                        }
                    }
                    if recorded(before, k) {
                        let s = slot_of(before, k);
                        assert(after[s].pair() == k);
                    }
                    if k == (beneficiary@, validator@) {
                        match found {
                            Some(i) => {
                                assert(after[i as int].pair() == k);
                            },
                            None => {
                                assert(after[before.len() as int].pair() == k);
                            },
                        }
                    }
                }
                assert forall|k: PairView| recorded(after, k) implies table_of(after)[k]
                    == table_of(before).insert((beneficiary@, validator@), amount)[k] by {
                    let s = slot_of(after, k);
                    lemma_slot(after, s);
                    if k != (beneficiary@, validator@) {
                        assert(before[s].pair() == k);
                        lemma_slot(before, s);
                    } else {
                        match found {
                            Some(i) => {
                                lemma_slot(after, i as int);
                            },
                            None => {
                                lemma_slot(after, before.len() as int);
                            },
                        }
                    }
                }
            }
        }
        self.entries = entries;
    }
}

} // verus!
