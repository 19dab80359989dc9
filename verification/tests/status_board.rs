use near_section::access_control::{Pausable, StatusMessage};
use near_section::account::AccountId;
use near_section::error::ContractError;

fn id(name: &str) -> AccountId {
    AccountId::new(name.to_string())
}

fn prepare_access_control() -> (StatusMessage, AccountId, AccountId) {
    let owner = id("owner.test.near");
    let caller = id("caller.test.near");
    (StatusMessage::init("Hello World".to_string(), owner.clone()), owner, caller)
}

#[test]
fn exploit_access_control() {
    let (mut access_control_contract, owner, caller) = prepare_access_control();

    // The owner signs a transaction to some other contract, which makes the
    // call: the signer is the owner, whoever the predecessor is.
    let res = access_control_contract.set_owner(&owner, caller.clone());
    assert!(res.is_ok(), "Exploit Failed: {:?}", res);

    let res = access_control_contract.pub_toggle_pause(&caller);
    assert!(res.is_ok(), "Toggle Pause Failed: {:?}", res);

    let pause_status = access_control_contract.get_pause_status();
    assert!(pause_status == true, "Could not pause contract");
}

#[test]
fn a_new_board_runs_and_shows_its_text() {
    let (board, _, _) = prepare_access_control();
    assert_eq!(board.get_pause_status(), false);
    assert_eq!(board.get_data(), Ok("Hello World".to_string()));
    assert_eq!(board.when_not_paused(), Ok(()));
}

#[test]
fn only_the_owner_toggles_the_pause() {
    let (mut board, owner, caller) = prepare_access_control();
    assert_eq!(board.pub_toggle_pause(&caller), Err(ContractError::NotOwner));
    assert_eq!(board.get_pause_status(), false);
    assert_eq!(board.pub_toggle_pause(&owner), Ok(()));
    assert_eq!(board.get_pause_status(), true);
    assert_eq!(board.get_data(), Err(ContractError::Paused));
    assert_eq!(board.when_not_paused(), Err(ContractError::Paused));
    assert_eq!(board.pub_toggle_pause(&owner), Ok(()));
    assert_eq!(board.get_pause_status(), false);
    assert_eq!(board.get_data(), Ok("Hello World".to_string()));
}

#[test]
fn set_owner_is_refused_to_other_signers() {
    let (mut board, owner, caller) = prepare_access_control();
    assert_eq!(board.set_owner(&caller, caller.clone()), Err(ContractError::NotOwner));
    assert_eq!(board.pub_toggle_pause(&caller), Err(ContractError::NotOwner));
    assert_eq!(board.set_owner(&owner, caller.clone()), Ok(()));
    assert_eq!(board.pub_toggle_pause(&owner), Err(ContractError::NotOwner));
    assert_eq!(board.set_owner(&owner, owner.clone()), Err(ContractError::NotOwner));
    assert_eq!(board.get_pause_status(), false);
}

#[test]
fn pause_unpause_and_toggle() {
    let (mut board, _, _) = prepare_access_control();
    board.pause();
    assert_eq!(board.get_pause_status(), true);
    board.pause();
    assert_eq!(board.get_pause_status(), true);
    board.toggle_pause();
    assert_eq!(board.get_pause_status(), false);
    board.toggle_pause();
    assert_eq!(board.get_pause_status(), true);
    board.unpause();
    assert_eq!(board.get_pause_status(), false);
    board.unpause();
    assert_eq!(board.get_pause_status(), false);
    assert_eq!(board.get_data(), Ok("Hello World".to_string()));
}
