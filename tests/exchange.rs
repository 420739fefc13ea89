use core_contract::error::ContractError;
use core_contract::exchange::{exchange_quote, TransferStatus};
use core_contract::ft_receiver::{Dispatch, FtMessage, Token};
use core_contract::{Contract, PostedNote};

const ONE_NEAR: u128 = 1_000_000_000_000_000_000_000_000;
const FT: &str = "ft.near";
const WNEAR: &str = "wnear.near";

fn contract() -> Contract {
    Contract::new(FT.to_string(), WNEAR.to_string(), vec!["manager.near".to_string()])
}

fn exchange(contract: &mut Contract, ledger: &str, sender: &str, amount: u128) -> Result<Dispatch, ContractError> {
    contract.ft_on_transfer(&ledger.to_string(), sender.to_string(), amount, FtMessage::Exchange)
}

#[test]
fn exchange_ft_wnear() {
    let mut contract = contract();
    let user = "user.near";
    // earn points worth two native tokens by posting a note
    let msg = FtMessage::AddNote(PostedNote::new("Hello".to_string(), "World".to_string(), None));
    contract.ft_on_transfer(&FT.to_string(), user.to_string(), 2 * ONE_NEAR, msg).unwrap();
    let started = exchange(&mut contract, FT, user, 8 * ONE_NEAR).unwrap();
    let (transfer, pending) = match started {
        Dispatch::ExchangeStarted { transfer, pending } => (transfer, pending),
        other => panic!("unexpected dispatch {other:?}"),
    };
    assert_eq!(transfer.ledger_id, WNEAR);
    assert_eq!(transfer.receiver_id, user);
    assert_eq!(transfer.amount, 2 * ONE_NEAR);
    assert_eq!(transfer.attached_deposit, 1);

    let amount = contract
        .resolve_exchange(pending.sender_id, pending.token_in, pending.amount, TransferStatus::Success)
        .unwrap();
    assert_eq!(contract.get_user_points(&user.to_string()), Ok(0));
    assert_eq!(amount, 2 * ONE_NEAR);
}

#[test]
fn exchange_near_ft() {
    let mut contract = contract();
    let user = "a.near".to_string();
    let started = exchange(&mut contract, WNEAR, &user, ONE_NEAR).unwrap();
    let (transfer, pending) = match started {
        Dispatch::ExchangeStarted { transfer, pending } => (transfer, pending),
        other => panic!("unexpected dispatch {other:?}"),
    };
    assert_eq!(transfer.ledger_id, FT);
    assert_eq!(transfer.amount, 4 * ONE_NEAR);
    assert_eq!(contract.get_user_points(&user), Ok(4 * ONE_NEAR));
    let settled = contract
        .resolve_exchange(pending.sender_id, pending.token_in, pending.amount, TransferStatus::Success)
        .unwrap();
    assert_eq!(settled, 4 * ONE_NEAR);
    assert_eq!(contract.get_user_points(&user), Ok(4 * ONE_NEAR));
}

#[test]
fn failed_near_exchange_restores_balance() {
    let mut contract = contract();
    let user = "a.near".to_string();
    let started = exchange(&mut contract, WNEAR, &user, ONE_NEAR).unwrap();
    let pending = match started {
        Dispatch::ExchangeStarted { pending, .. } => pending,
        other => panic!("unexpected dispatch {other:?}"),
    };
    assert_eq!(contract.get_user_points(&user), Ok(4 * ONE_NEAR));
    let returned = contract
        .resolve_exchange(pending.sender_id, pending.token_in, pending.amount, TransferStatus::Failure)
        .unwrap();
    assert_eq!(returned, 4 * ONE_NEAR);
    assert_eq!(contract.get_user_points(&user), Ok(0));
}

#[test]
fn failed_ft_exchange_restores_balance() {
    let mut contract = contract();
    let user = "a.near".to_string();
    // earn 8 points first
    exchange(&mut contract, WNEAR, &user, 2 * ONE_NEAR).unwrap();
    assert_eq!(contract.get_user_points(&user), Ok(8 * ONE_NEAR));
    let started = exchange(&mut contract, FT, &user, 5 * ONE_NEAR + 3).unwrap();
    let pending = match started {
        Dispatch::ExchangeStarted { pending, .. } => pending,
        other => panic!("unexpected dispatch {other:?}"),
    };
    assert_eq!(pending.amount, (5 * ONE_NEAR + 3) / 4);
    assert_eq!(contract.get_user_points(&user), Ok(8 * ONE_NEAR - (5 * ONE_NEAR + 3) / 4));
    contract
        .resolve_exchange(pending.sender_id, pending.token_in, pending.amount, TransferStatus::Failure)
        .unwrap();
    assert_eq!(contract.get_user_points(&user), Ok(8 * ONE_NEAR));
}

#[test]
fn ft_exchange_beyond_balance_is_rejected() {
    let mut contract = contract();
    let user = "a.near".to_string();
    exchange(&mut contract, WNEAR, &user, ONE_NEAR).unwrap();
    let res = exchange(&mut contract, FT, &user, 20 * ONE_NEAR);
    assert!(matches!(res, Err(ContractError::PointsUnderflow)));
    assert_eq!(contract.get_user_points(&user), Ok(4 * ONE_NEAR));
}

#[test]
fn exchange_below_minimum_changes_nothing() {
    let mut contract = contract();
    let user = "a.near".to_string();
    contract.add_note(user.clone(), "t".to_string(), "b".to_string()).unwrap();
    exchange(&mut contract, WNEAR, &user, ONE_NEAR).unwrap();
    let notes_before = contract.get_notes(&user, None, None).unwrap();

    let res = exchange(&mut contract, WNEAR, &user, ONE_NEAR - 1);
    assert!(matches!(res, Err(ContractError::MinAmount)));
    let res = exchange(&mut contract, FT, &user, 4 * ONE_NEAR - 1);
    assert!(matches!(res, Err(ContractError::MinAmount)));
    let res = exchange(&mut contract, FT, "new.near", 0);
    assert!(matches!(res, Err(ContractError::MinAmount)));

    assert_eq!(contract.get_user_points(&user), Ok(4 * ONE_NEAR));
    assert_eq!(contract.get_notes(&user, None, None).unwrap(), notes_before);
    assert_eq!(contract.get_user_points(&"new.near".to_string()), Err(ContractError::NoEntry));
}

#[test]
fn quote_rates_and_minimums() {
    assert_eq!(exchange_quote(Token::Near, ONE_NEAR), Ok((Token::FungibleToken, 4 * ONE_NEAR)));
    assert_eq!(exchange_quote(Token::Near, ONE_NEAR + 1), Ok((Token::FungibleToken, 4 * ONE_NEAR + 4)));
    assert_eq!(exchange_quote(Token::Near, ONE_NEAR - 1), Err(ContractError::MinAmount));
    assert_eq!(exchange_quote(Token::FungibleToken, 4 * ONE_NEAR), Ok((Token::Near, ONE_NEAR)));
    assert_eq!(exchange_quote(Token::FungibleToken, 4 * ONE_NEAR + 3), Ok((Token::Near, ONE_NEAR)));
    assert_eq!(exchange_quote(Token::FungibleToken, 4 * ONE_NEAR - 1), Err(ContractError::MinAmount));
    assert_eq!(exchange_quote(Token::FungibleToken, 1), Err(ContractError::MinAmount));
    assert_eq!(exchange_quote(Token::Near, u128::MAX), Err(ContractError::AmountOverflow));
    assert_eq!(exchange_quote(Token::FungibleToken, u128::MAX), Ok((Token::Near, u128::MAX / 4)));
}

#[test]
fn concrete_exchange_scenario() {
    // success: the optimistic credit stays
    let mut contract = contract();
    let a = "a.near".to_string();
    let pending = match exchange(&mut contract, WNEAR, &a, ONE_NEAR).unwrap() {
        Dispatch::ExchangeStarted { transfer, pending } => {
            assert_eq!(transfer.ledger_id, FT);
            assert_eq!(transfer.amount, 4 * ONE_NEAR);
            pending
        }
        other => panic!("unexpected dispatch {other:?}"),
    };
    assert_eq!(contract.get_user_points(&a), Ok(4 * ONE_NEAR));
    contract
        .resolve_exchange(pending.sender_id, pending.token_in, pending.amount, TransferStatus::Success)
        .unwrap();
    assert_eq!(contract.get_user_points(&a), Ok(4 * ONE_NEAR));

    // failure: the credit is undone
    let mut contract = self::contract();
    let pending = match exchange(&mut contract, WNEAR, &a, ONE_NEAR).unwrap() {
        Dispatch::ExchangeStarted { pending, .. } => pending,
        other => panic!("unexpected dispatch {other:?}"),
    };
    contract
        .resolve_exchange(pending.sender_id, pending.token_in, pending.amount, TransferStatus::Failure)
        .unwrap();
    assert_eq!(contract.get_user_points(&a), Ok(0));
}

#[test]
fn token_resolution() {
    let contract = contract();
    assert_eq!(contract.token_from_account(&WNEAR.to_string()), Ok(Token::Near));
    assert_eq!(contract.token_from_account(&FT.to_string()), Ok(Token::FungibleToken));
    assert_eq!(
        contract.token_from_account(&"x.near".to_string()),
        Err(ContractError::TokenNotSupported)
    );
    assert_eq!(contract.token_account(Token::Near), WNEAR);
    assert_eq!(contract.token_account(Token::FungibleToken), FT);
    assert_eq!(Token::Near.display_name(), "WNEAR");
    assert_eq!(Token::FungibleToken.display_name(), "FungibleToken");
}

#[test]
fn compensation_overflow_is_rejected() {
    let mut contract = contract();
    let a = "a.near".to_string();
    // a failed debit-direction resolution credits; near the top it cannot
    exchange(&mut contract, WNEAR, &a, u128::MAX / 4).unwrap();
    let before = contract.get_user_points(&a).unwrap();
    let res = contract.resolve_exchange(a.clone(), Token::FungibleToken, u128::MAX, TransferStatus::Failure);
    assert_eq!(res, Err(ContractError::AmountOverflow));
    assert_eq!(contract.get_user_points(&a), Ok(before));
    let res = contract.resolve_exchange(a.clone(), Token::Near, u128::MAX, TransferStatus::Failure);
    assert_eq!(res, Err(ContractError::PointsUnderflow));
}

#[test]
fn ft_sale_without_points_is_rejected() {
    let mut contract = contract();
    let res = exchange(&mut contract, FT, "new.near", 8 * ONE_NEAR);
    assert!(matches!(res, Err(ContractError::PointsUnderflow)));
    assert_eq!(contract.get_user_points(&"new.near".to_string()), Err(ContractError::NoEntry));
}

#[test]
fn failed_resolution_with_no_entry_is_rejected() {
    let mut contract = contract();
    let res = contract.resolve_exchange("new.near".to_string(), Token::Near, ONE_NEAR, TransferStatus::Failure);
    assert_eq!(res, Err(ContractError::PointsUnderflow));
    assert_eq!(contract.get_user_points(&"new.near".to_string()), Err(ContractError::NoEntry));
}
