use core_contract::error::ContractError;
use core_contract::ft_receiver::{Dispatch, FtMessage};
use core_contract::{storage_refund, Contract, PostedNote};

const ONE_NEAR: u128 = 1_000_000_000_000_000_000_000_000;

fn contract() -> Contract {
    Contract::new(
        "some_acc.near".to_string(),
        "some_acc.near".to_string(),
        vec!["some_acc.near".to_string()],
    )
}

fn exchange_contract() -> Contract {
    Contract::new(
        "ft.near".to_string(),
        "wnear.near".to_string(),
        vec!["manager.near".to_string()],
    )
}

fn note(id: Option<u64>, title: &str, body: &str) -> PostedNote {
    PostedNote::new(title.to_string(), body.to_string(), id)
}

fn notes_of(contract: &Contract, account: &str) -> Vec<PostedNote> {
    contract
        .get_notes(&account.to_string(), None, None)
        .unwrap()
}

#[test]
fn get_default_greeting() {
    let contract = contract();
    assert_eq!(contract.get_greeting(), "Hello");
}

#[test]
fn set_then_get_greeting() {
    let mut contract = contract();
    contract.set_greeting("howdy".to_string());
    assert_eq!(contract.get_greeting(), "howdy");
}

#[test]
fn lib_add_note() {
    let mut contract = contract();
    let account_id = "account_id1";

    let posted_note = note(Some(0), "title", "body");
    contract
        .add_note(account_id.to_string(), posted_note.title.clone(), posted_note.body.clone())
        .unwrap();

    let notes = notes_of(&contract, account_id);
    assert_eq!(notes.len(), 1);
    assert!(notes.contains(&posted_note));

    let posted_note_2 = note(Some(1), "title2", "body2");
    contract
        .add_note(account_id.to_string(), posted_note_2.title.clone(), posted_note_2.body.clone())
        .unwrap();

    let account_id_2 = "account_id2";
    let posted_note_3 = note(Some(2), "title3", "body3");
    contract
        .add_note(account_id_2.to_string(), posted_note_3.title.clone(), posted_note_3.body.clone())
        .unwrap();

    let notes = notes_of(&contract, account_id);
    let notes_2 = notes_of(&contract, account_id_2);

    assert_eq!(notes.len(), 2);
    assert!(notes.contains(&posted_note));
    assert!(notes.contains(&posted_note_2));

    assert!(notes_2.contains(&posted_note_3));
}

#[test]
fn integration_add_note() {
    let mut contract = contract();
    let user = "user.test.near".to_string();
    contract.add_note(user.clone(), "Hello".to_string(), "World".to_string()).unwrap();

    let notes = notes_of(&contract, &user);
    assert_eq!(notes.len(), 1);
    assert_eq!(notes[0].title, "Hello");
    assert_eq!(notes[0].body, "World");
    assert!(contract.get_notes(&"other.near".to_string(), None, None).is_err());
}

#[test]
fn add_note_ft() {
    let mut contract = exchange_contract();
    let user = "user.test.near".to_string();
    let msg = FtMessage::AddNote(note(None, "Hello", "World"));
    let res = contract.ft_on_transfer(&"ft.near".to_string(), user.clone(), ONE_NEAR, msg);
    assert!(matches!(res, Ok(Dispatch::NoteAdded { consumed }) if consumed == ONE_NEAR));

    let notes = notes_of(&contract, &user);
    assert_eq!(notes.len(), 1);
    assert_eq!(notes[0].title, "Hello");
    assert_eq!(notes[0].body, "World");
    assert_eq!(notes[0].id, Some(0));

    assert_eq!(contract.get_user_points(&user), Ok(ONE_NEAR));
}

#[test]
fn add_note_ft_assigns_next_id_and_adds_points() {
    let mut contract = exchange_contract();
    let user = "user.near".to_string();
    let msg = FtMessage::AddNote(note(Some(7), "t", "b"));
    contract.ft_on_transfer(&"ft.near".to_string(), user.clone(), 2 * ONE_NEAR, msg).unwrap();
    let msg = FtMessage::AddNote(note(None, "t2", "b2"));
    contract.ft_on_transfer(&"wnear.near".to_string(), user.clone(), ONE_NEAR, msg).unwrap();
    let notes = notes_of(&contract, &user);
    assert_eq!(notes, vec![note(Some(0), "t", "b"), note(Some(1), "t2", "b2")]);
    assert_eq!(contract.get_user_points(&user), Ok(3 * ONE_NEAR));
}

#[test]
fn add_note_ft_below_minimum_is_rejected() {
    let mut contract = exchange_contract();
    let user = "user.near".to_string();
    let msg = FtMessage::AddNote(note(None, "t", "b"));
    let res = contract.ft_on_transfer(&"ft.near".to_string(), user.clone(), ONE_NEAR - 1, msg);
    assert!(matches!(res, Err(ContractError::MinimumDeposit)));
    assert!(contract.get_notes(&user, None, None).is_err());
    assert_eq!(contract.get_user_points(&user), Err(ContractError::NoEntry));
}

#[test]
fn unknown_token_is_rejected() {
    let mut contract = exchange_contract();
    let res = contract.ft_on_transfer(
        &"other.near".to_string(),
        "user.near".to_string(),
        ONE_NEAR,
        FtMessage::Exchange,
    );
    assert!(matches!(res, Err(ContractError::TokenNotSupported)));
    assert_eq!(
        contract.get_user_points(&"user.near".to_string()),
        Err(ContractError::NoEntry)
    );
}

#[test]
fn get_note_by_account_and_id() {
    let mut contract = contract();
    let b = "b.near".to_string();
    assert_eq!(contract.add_note(b.clone(), "Hello".to_string(), "World".to_string()), Ok(0));
    assert_eq!(contract.get_note(&b, 0), Ok(note(Some(0), "Hello", "World")));
    assert_eq!(contract.add_note(b.clone(), "Second".to_string(), "Note".to_string()), Ok(1));
    assert_eq!(contract.get_note(&b, 1), Ok(note(Some(1), "Second", "Note")));
}

#[test]
fn get_note_errors() {
    let mut contract = contract();
    let a = "a.near".to_string();
    assert_eq!(contract.get_note(&a, 0), Err(ContractError::NoEntry));
    assert_eq!(contract.get_note(&a, 5), Err(ContractError::NoEntry));
    contract.add_note(a.clone(), "t".to_string(), "b".to_string()).unwrap();
    assert_eq!(contract.get_note(&a, 0), Ok(note(Some(0), "t", "b")));
    assert_eq!(contract.get_note(&a, 1), Err(ContractError::NoteDoesNotExist));
    assert_eq!(contract.get_note(&a, 2), Err(ContractError::NoteDoesNotExist));
}

#[test]
fn sequential_notes_listed_in_order() {
    let mut contract = contract();
    let a = "a.near".to_string();
    for i in 0..5u64 {
        let id = contract.add_note(a.clone(), format!("t{i}"), format!("b{i}")).unwrap();
        assert_eq!(id, i);
    }
    let notes = contract.get_notes(&a, Some(0), None).unwrap();
    assert_eq!(notes.len(), 5);
    for (i, n) in notes.iter().enumerate() {
        assert_eq!(n.title, format!("t{i}"));
        assert_eq!(n.body, format!("b{i}"));
    }
    for w in notes.windows(2) {
        assert!(w[0].id.unwrap() < w[1].id.unwrap());
    }
}

#[test]
fn get_notes_pages() {
    let mut contract = contract();
    let a = "a.near".to_string();
    for i in 0..5u64 {
        contract.add_note(a.clone(), format!("t{i}"), "b".to_string()).unwrap();
    }
    let page = contract.get_notes(&a, Some(1), Some(2)).unwrap();
    assert_eq!(page, vec![note(Some(1), "t1", "b"), note(Some(2), "t2", "b")]);
    let tail = contract.get_notes(&a, Some(4), Some(10)).unwrap();
    assert_eq!(tail, vec![note(Some(4), "t4", "b")]);
    assert!(contract.get_notes(&a, Some(9), None).unwrap().is_empty());
    assert!(contract.get_notes(&a, None, Some(0)).unwrap().is_empty());
}

#[test]
fn remove_note_by_id() {
    let mut contract = exchange_contract();
    let a = "a.near".to_string();
    contract.add_note(a.clone(), "t0".to_string(), "b".to_string()).unwrap();
    contract.add_note(a.clone(), "t1".to_string(), "b".to_string()).unwrap();
    let res = contract.ft_on_transfer(&"ft.near".to_string(), a.clone(), ONE_NEAR, FtMessage::RemoveNote(0));
    assert!(matches!(res, Ok(Dispatch::NoteRemoved { consumed: 0 })));
    assert_eq!(notes_of(&contract, &a), vec![note(Some(1), "t1", "b")]);
    // removing again, or an id that never existed, changes nothing
    contract.remove_note(&a, 0);
    contract.remove_note(&a, 42);
    assert_eq!(notes_of(&contract, &a), vec![note(Some(1), "t1", "b")]);
    contract.remove_note(&"nobody.near".to_string(), 1);
    assert!(contract.get_notes(&"nobody.near".to_string(), None, None).is_err());
}

#[test]
fn repeated_note_message_gets_fresh_ids() {
    let mut contract = exchange_contract();
    let a = "a.near".to_string();
    let msg = FtMessage::AddNote(note(Some(3), "same", "note"));
    contract.ft_on_transfer(&"ft.near".to_string(), a.clone(), ONE_NEAR, msg.clone()).unwrap();
    contract.ft_on_transfer(&"ft.near".to_string(), a.clone(), ONE_NEAR, msg).unwrap();
    assert_eq!(
        notes_of(&contract, &a),
        vec![note(Some(0), "same", "note"), note(Some(1), "same", "note")]
    );
    assert_eq!(contract.get_note(&a, 3), Err(ContractError::NoteDoesNotExist));
    assert_eq!(contract.get_user_points(&a), Ok(2 * ONE_NEAR));
}

#[test]
fn storage_refund_arithmetic() {
    assert_eq!(storage_refund(1000, 10, 30), Ok(700));
    assert_eq!(storage_refund(300, 10, 30), Ok(0));
    assert_eq!(storage_refund(299, 10, 30), Err(ContractError::NotEnoughDeposit));
    assert_eq!(storage_refund(0, 0, 0), Ok(0));
    assert_eq!(storage_refund(u128::MAX, u128::MAX, 2), Err(ContractError::NotEnoughDeposit));
}

#[test]
fn error_messages() {
    assert_eq!(ContractError::NoteDoesNotExist.message(), "Note does not exist");
    assert_eq!(ContractError::MinAmount.message(), "ERR_MIN_AMOUNT");
    assert_eq!(ContractError::NotManager.message(), "ERR_NOT_MANAGER");
}

#[test]
fn contract_is_operational() {
    let mut contract = contract();
    contract.set_greeting("Hello World!".to_string());
    assert_eq!(contract.get_greeting(), "Hello World!");
}
