use core_contract::pausable::Pausable;
use core_contract::Contract;

fn contract() -> Contract {
    Contract::new(
        "some_acc.near".to_string(),
        "some_acc.near".to_string(),
        vec!["some_acc.near".to_string()],
    )
}

#[test]
fn paused() {
    let mut contract = contract();
    assert!(!contract.is_paused());
    assert!(contract.assert_not_paused().is_ok());
    contract.toggle_pause();
    assert!(contract.is_paused());
    assert!(contract.assert_not_paused().is_err());
    contract.toggle_pause();
    assert!(!contract.is_paused());
}
