//! A status board that its owner can pause.

use vstd::prelude::*;
use crate::account::AccountId;
use crate::error::ContractError;

verus! {

/// What a status board holds.
pub struct StatusView {
    pub data: Seq<char>,
    pub paused: bool,
    pub owner: Seq<char>,
}

/// A service that can be paused and resumed.
pub trait Pausable {
    /// Whether the service is paused.
    spec fn paused(&self) -> bool;

    /// Pauses a running service and resumes a paused one.
    fn toggle_pause(&mut self)
        ensures
            final(self).paused() == !old(self).paused(),
    ;

    /// Pauses the service.
    fn pause(&mut self)
        ensures
            final(self).paused(),
    ;

    /// Resumes the service.
    fn unpause(&mut self)
        ensures
            !final(self).paused(),
    ;

    /// Refuses while the service is paused.
    fn when_not_paused(&self) -> (outcome: Result<(), ContractError>)
        ensures
            outcome == if self.paused() {
                Err::<(), ContractError>(ContractError::Paused)
            } else {
                Ok::<(), ContractError>(())
            },
    ;
}

/// The status board: a text, the pause switch, and the owner who may flip it.
pub struct StatusMessage {
    data: String,
    pause_status: bool,
    owner: AccountId,
}

impl View for StatusMessage {
    type V = StatusView;

    closed spec fn view(&self) -> StatusView {
        StatusView { data: self.data@, paused: self.pause_status, owner: self.owner@ }
    }
}

impl StatusMessage {
    /// A running board with the given text and owner.
    pub fn init(data: String, owner: AccountId) -> (board: StatusMessage)
        ensures
            board@ == (StatusView { data: data@, paused: false, owner: owner@ }),
    {
        StatusMessage { owner, data, pause_status: false }
    }

    /// Whether the board is paused.
    pub fn get_pause_status(&self) -> (paused: bool)
        ensures
            paused == self@.paused,
    {
        self.pause_status
    }

    /// The text, refused while the board is paused.
    pub fn get_data(&self) -> (outcome: Result<String, ContractError>)
        ensures
            match outcome {
                Ok(text) => !self@.paused && text@ == self@.data,
                Err(refusal) => self@.paused && refusal == ContractError::Paused,
            },
    {
        match self.when_not_paused() {
            Err(refusal) => Err(refusal),
            Ok(_) => Ok(self.data.clone()),
        }
    }

    /// Flips the pause switch for the owner, and refuses anyone else.
    /// `predecessor` is the account that made the call.
    pub fn pub_toggle_pause(&mut self, predecessor: &AccountId) -> (outcome: Result<
        (),
        ContractError,
    >)
        ensures
            predecessor@ == old(self)@.owner ==> outcome is Ok && final(self)@ == (StatusView {
                paused: !old(self)@.paused,
                ..old(self)@
            }),
            predecessor@ != old(self)@.owner ==> outcome == Err::<(), ContractError>(
                ContractError::NotOwner,
            ) && final(self)@ == old(self)@,
    {
        if !predecessor.same(&self.owner) {
            return Err(ContractError::NotOwner);
        }
        self.toggle_pause();
        Ok(())
    }

    /// Hands the board to `new_owner`. The call is judged by `signer`, the
    /// account that signed the transaction, not by the account that made the
    /// call: whoever the owner's transaction reaches can take the board.
    pub fn set_owner(&mut self, signer: &AccountId, new_owner: AccountId) -> (outcome: Result<
        (),
        ContractError,
    >)
        ensures
            signer@ == old(self)@.owner ==> outcome is Ok && final(self)@ == (StatusView {
                owner: new_owner@,
                ..old(self)@
            }),
            signer@ != old(self)@.owner ==> outcome == Err::<(), ContractError>(
                ContractError::NotOwner,
            ) && final(self)@ == old(self)@,
    {
        if !signer.same(&self.owner) {
            return Err(ContractError::NotOwner);
        }
        self.owner = new_owner;
        Ok(())
    }
}

impl Pausable for StatusMessage {
    open spec fn paused(&self) -> bool {
        self@.paused
    }

    fn toggle_pause(&mut self)
        ensures
            final(self)@ == (StatusView { paused: !old(self)@.paused, ..old(self)@ }),
    {
        if !self.pause_status {
            self.pause()
        } else {
            self.unpause()
        }
    }

    fn pause(&mut self)
        ensures
            final(self)@ == (StatusView { paused: true, ..old(self)@ }),
    {
        self.pause_status = true;
    }

    fn unpause(&mut self)
        ensures
            final(self)@ == (StatusView { paused: false, ..old(self)@ }),
    {
        self.pause_status = false;
    }

    fn when_not_paused(&self) -> (outcome: Result<(), ContractError>) {
        if self.pause_status {
            Err(ContractError::Paused)
        } else {
            Ok(())
        }
    }
}

} // verus!
