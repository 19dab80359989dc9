//! A set of accounts, as a registry or an allowlist keeps it.

use vstd::prelude::*;
use crate::account::AccountId;

verus! {

/// An owned set of accounts. No account occurs twice, and a member, once
/// added, is never removed.
pub struct AccountSet {
    members: Vec<AccountId>,
}

spec fn distinct_members(members: Seq<AccountId>) -> bool {
    forall|i: int, j: int|
        0 <= i < j < members.len() ==> (#[trigger] members[i])@ != (#[trigger] members[j])@
}

spec fn listed(members: Seq<AccountId>, who: Seq<char>) -> bool {
    exists|i: int| 0 <= i < members.len() && (#[trigger] members[i])@ == who
}

impl View for AccountSet {
    type V = Set<Seq<char>>;

    closed spec fn view(&self) -> Set<Seq<char>> {
        Set::new(|who: Seq<char>| listed(self.members@, who))
    }
}

impl AccountSet {
    #[verifier::type_invariant]
    spec fn well_formed(self) -> bool {
        distinct_members(self.members@)
    }

    /// An empty set.
    pub fn new() -> (set: AccountSet)
        ensures
            set@ == Set::<Seq<char>>::empty(),
    {
        let set = AccountSet { members: Vec::new() };
        assert(set@ =~= Set::<Seq<char>>::empty());
        set
    }

    /// Whether `who` is a member.
    pub fn contains(&self, who: &AccountId) -> (member: bool)
        ensures
            member == self@.contains(who@),
    {
        let mut i: usize = 0;
        while i < self.members.len()
            invariant
                i <= self.members@.len(),
                forall|j: int| 0 <= j < i ==> (#[trigger] self.members@[j])@ != who@,
            decreases self.members@.len() - i,
        {
            if self.members[i].same(who) {
                return true;
            }
            i += 1;
        }
        false
    }

    /// Adds `who`. Returns whether the account was not a member before.
    pub fn insert(&mut self, who: &AccountId) -> (added: bool)
        ensures
            final(self)@ == old(self)@.insert(who@),
            added == !old(self)@.contains(who@),
    {
        proof {
            use_type_invariant(&*self);
        }
        if self.contains(who) {
            assert(self@ =~= self@.insert(who@));
            return false;
        }
        let mut members: Vec<AccountId> = Vec::new();
        std::mem::swap(&mut members, &mut self.members);
        let ghost before = members@;
        members.push(who.clone());
        proof {
            let after = members@;
            assert forall|a: int, b: int| 0 <= a < b < after.len() implies (#[trigger] after[a])@
                != (#[trigger] after[b])@ by {
                if b < before.len() {
                    assert(before[a]@ != before[b]@);
                } else {
                    assert(before[a]@ == after[a]@);
                }
            }
            assert forall|k: Seq<char>| listed(after, k) <==> (listed(before, k) || k
                == who@) by {
                if listed(after, k) {
                    let s = choose|i: int| 0 <= i < after.len() && (#[trigger] after[i])@ == k;
                    if s < before.len() {
                        assert(before[s]@ == k);
                    }
                }
                if listed(before, k) {
                    let s = choose|i: int| 0 <= i < before.len() && (#[trigger] before[i])@ == k;
                    assert(after[s]@ == k);
                }
                if k == who@ {
                    assert(after[before.len() as int]@ == k);
                }
            }
            assert(Set::new(|w: Seq<char>| listed(after, w)) =~= Set::new(
                |w: Seq<char>| listed(before, w),
            ).insert(who@));
        }
        self.members = members;
        true
    }
}

} // verus!
