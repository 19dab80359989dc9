//! A pausable status board that also keeps a registry of users. Anyone may
//! register any account, alone or in batches of any length.

use vstd::prelude::*;
use crate::account::AccountId;
use crate::error::ContractError;
use crate::roster::AccountSet;

verus! {

/// What a registry holds.
pub struct RegistryView {
    pub data: Seq<char>,
    pub paused: bool,
    pub owner: Seq<char>,
    pub users: Set<Seq<char>>,
}

/// The accounts that a list names.
pub open spec fn names(accounts: Seq<AccountId>) -> Set<Seq<char>> {
    Set::new(|who: Seq<char>| exists|i: int| 0 <= i < accounts.len() && (#[trigger] accounts[i])@ == who)
}

/// A service that can be paused and resumed.
pub trait Pausable {
    /// Whether the service is paused.
    spec fn paused(&self) -> bool;

    /// Pauses a running service and resumes a paused one.
    fn toggle_pause(&mut self)
        ensures
            final(self).paused() == !old(self).paused(),
    ;

    /// Pauses the service.
    fn pause(&mut self)
        ensures
            final(self).paused(),
    ;

    /// Resumes the service.
    fn unpause(&mut self)
        ensures
            !final(self).paused(),
    ;

    /// Refuses while the service is paused.
    fn when_not_paused(&self) -> (outcome: Result<(), ContractError>)
        ensures
            outcome == if self.paused() {
                Err::<(), ContractError>(ContractError::Paused)
            } else {
                Ok::<(), ContractError>(())
            },
    ;
}

/// The registry: a text, the pause switch, the owner, and the registered
/// users.
pub struct StatusMessage {
    data: String,
    pause_status: bool,
    owner: AccountId,
    users: AccountSet,
}

impl View for StatusMessage {
    type V = RegistryView;

    closed spec fn view(&self) -> RegistryView {
        RegistryView {
            data: self.data@,
            paused: self.pause_status,
            owner: self.owner@,
            users: self.users@,
        }
    }
}

impl StatusMessage {
    /// A running registry with the given text and owner, and no users.
    pub fn init(data: String, owner: AccountId) -> (registry: StatusMessage)
        ensures
            registry@ == (RegistryView {
                data: data@,
                paused: false,
                owner: owner@,
                users: Set::empty(),
            }),
    {
        StatusMessage { owner, users: AccountSet::new(), data, pause_status: false }
    }

    /// Whether the registry is paused.
    pub fn get_pause_status(&self) -> (paused: bool)
        ensures
            paused == self@.paused,
    {
        self.pause_status
    }

    /// Whether `user` is registered.
    pub fn is_registered(&self, user: &AccountId) -> (registered: bool)
        ensures
            registered == self@.users.contains(user@),
    {
        self.users.contains(user)
    }

    /// Registers `user`. Registering a user again changes nothing.
    pub fn register_user(&mut self, user: AccountId)
        ensures
            final(self)@ == (RegistryView { users: old(self)@.users.insert(user@), ..old(self)@ }),
    {
        self.users.insert(&user);
    }

    /// Registers every account of `users`, in order.
    pub fn register_batch(&mut self, users: Vec<AccountId>)
        ensures
            final(self)@ == (RegistryView {
                users: old(self)@.users.union(names(users@)),
                ..old(self)@
            }),
    {
        let mut i: usize = 0;
        assert(self@.users =~= old(self)@.users.union(names(users@.take(0))));
        while i < users.len()
            invariant
                i <= users@.len(),
                self@ == (RegistryView {
                    users: old(self)@.users.union(names(users@.take(i as int))),
                    ..old(self)@
                }),
            decreases users@.len() - i,
        {
            let ghost before = names(users@.take(i as int));
            self.register_user(users[i].clone());
            proof {
                let after = names(users@.take(i + 1));
                assert forall|who: Seq<char>| after.contains(who) <==> (before.contains(who) || who
                    == users@[i as int]@) by {
                    if before.contains(who) {
                        let k = choose|k: int|
                            0 <= k < users@.take(i as int).len() && (#[trigger] users@.take(
                                i as int,
                            )[k])@ == who;
                        assert(users@.take(i + 1)[k]@ == who);
                    }
                    if who == users@[i as int]@ {
                        assert(users@.take(i + 1)[i as int]@ == who);
                    }
                    if after.contains(who) {
                        let k = choose|k: int|
                            0 <= k < users@.take(i + 1).len() && (#[trigger] users@.take(
                                i + 1,
                            )[k])@ == who;
                        if k < i {
                            assert(users@.take(i as int)[k]@ == who);
                        }
                    }
                }
                assert(old(self)@.users.union(before).insert(users@[i as int]@) =~= old(
                    self,
                )@.users.union(after));
            }
            i += 1;
        }
        proof {
            assert(users@.take(i as int) == users@);
        }
    }

    /// The text, refused while the registry is paused.
    pub fn get_data(&self) -> (outcome: Result<String, ContractError>)
        ensures
            match outcome {
                Ok(text) => !self@.paused && text@ == self@.data,
                Err(refusal) => self@.paused && refusal == ContractError::Paused,
            },
    {
        match self.when_not_paused() {
            Err(refusal) => Err(refusal),
            Ok(_) => Ok(self.data.clone()),
        }
    }

    /// Flips the pause switch for the owner, and refuses anyone else.
    /// `predecessor` is the account that made the call.
    pub fn pub_toggle_pause(&mut self, predecessor: &AccountId) -> (outcome: Result<
        (),
        ContractError,
    >)
        ensures
            predecessor@ == old(self)@.owner ==> outcome is Ok && final(self)@ == (RegistryView {
                paused: !old(self)@.paused,
                ..old(self)@
            }),
            predecessor@ != old(self)@.owner ==> outcome == Err::<(), ContractError>(
                ContractError::NotOwner,
            ) && final(self)@ == old(self)@,
    {
        if !predecessor.same(&self.owner) {
            return Err(ContractError::NotOwner);
        }
        self.toggle_pause();
        Ok(())
    }

    /// Hands the registry to `new_owner` for the owner, and refuses anyone
    /// else. `predecessor` is the account that made the call.
    pub fn set_owner(&mut self, predecessor: &AccountId, new_owner: AccountId) -> (outcome: Result<
        (),
        ContractError,
    >)
        ensures
            predecessor@ == old(self)@.owner ==> outcome is Ok && final(self)@ == (RegistryView {
                owner: new_owner@,
                ..old(self)@
            }),
            predecessor@ != old(self)@.owner ==> outcome == Err::<(), ContractError>(
                ContractError::NotOwner,
            ) && final(self)@ == old(self)@,
    {
        if !predecessor.same(&self.owner) {
            return Err(ContractError::NotOwner);
        }
        self.owner = new_owner;
        Ok(())
    }
}

impl Pausable for StatusMessage {
    open spec fn paused(&self) -> bool {
        self@.paused
    }

    fn toggle_pause(&mut self)
        ensures
            final(self)@ == (RegistryView { paused: !old(self)@.paused, ..old(self)@ }),
    {
        if !self.pause_status {
            self.pause()
        } else {
            self.unpause()
        }
    }

    fn pause(&mut self)
        ensures
            final(self)@ == (RegistryView { paused: true, ..old(self)@ }),
    {
        self.pause_status = true;
    }

    fn unpause(&mut self)
        ensures
            final(self)@ == (RegistryView { paused: false, ..old(self)@ }),
    {
        self.pause_status = false;
    }

    fn when_not_paused(&self) -> (outcome: Result<(), ContractError>) {
        if self.pause_status {
            Err(ContractError::Paused)
        } else {
            Ok(())
        }
    }
}

} // verus!
