use cosmwasm_std::testing::{MockApi, MockStorage};
use cosmwasm_std::{Api, StdError, Storage};
use note_ledger::bank::{amount_text, Attribute, BankMsg, Coin, Env, MessageInfo};
use note_ledger::contract::{
    collect_fee, exec_store_note, exec_update_fees, exec_update_key, execute, find_coin,
    get_fee_msg, instantiate, query, query_enc_key, query_fees, query_note_count, query_notes,
    query_senders,
};
use note_ledger::error::ContractError;
use note_ledger::identity::{Identity, MAX_IDENTITY_BYTES};
use note_ledger::msg::{
    EncryptionKeyResponse, ExecuteMsg, InstantiateMsg, QueryMsg, QueryResponse,
};
use note_ledger::state::{
    find_senders, load_enc_key, load_fees, load_note_meta, load_notes, save_enc_key, save_fees,
    store_note, Fees, Note, NoteMeta, Store,
};

fn id(text: &str) -> Identity {
    Identity::new(text.to_string()).unwrap()
}

fn coin(amount: u128, denom: &str) -> Coin {
    Coin { denom: denom.to_string(), amount }
}

fn info(sender: &str, funds: Vec<Coin>) -> MessageInfo {
    MessageInfo { sender: sender.to_string(), funds }
}

fn name(text: &str) -> String {
    text.to_string()
}

fn env(time: u64) -> Env {
    Env { time }
}

fn note(sender: &str, text: &str, timestamp: u64) -> Note {
    Note { sender: sender.to_string(), note: text.as_bytes().to_vec(), timestamp }
}

fn fees(admin: Option<&str>, burn_fees: bool) -> Fees {
    Fees {
        admin: admin.map(|a| a.to_string()),
        store_keys: 1000000,
        store_notes: 500000,
        denom: "luna".to_string(),
        burn_fees,
    }
}

fn set_up(store: &mut Store, store_keys_fee: u128, store_notes_fee: u128) {
    instantiate(
        store,
        env(1),
        info("admin", vec![]),
        InstantiateMsg { denom: "luna".to_string(), store_keys_fee, store_notes_fee },
    )
    .unwrap();
}

fn texts(notes: &[Note]) -> Vec<String> {
    notes.iter().map(|n| String::from_utf8(n.note.clone()).unwrap()).collect()
}

#[test]
fn identity_takes_text_up_to_the_key_limit() {
    assert_eq!(MAX_IDENTITY_BYTES, 65535);
    let longest = "a".repeat(65535);
    let identity = Identity::new(longest.clone()).unwrap();
    assert_eq!(identity.as_string(), &longest);
    assert_eq!(identity.clone().into_string(), longest);
    assert!(Identity::new("a".repeat(65536)).is_none());
    // the limit counts bytes, not characters
    assert!(Identity::new("é".repeat(32767)).is_some());
    assert!(Identity::new("é".repeat(32768)).is_none());
    assert_eq!(Identity::new(String::new()).unwrap().as_string(), "");
}

#[test]
fn count_and_listing_follow_the_number_of_stored_notes() {
    let mut storage = MockStorage::new();
    let mut store = Store::new(&mut storage);
    for n in 0..7u64 {
        let index =
            store_note(&mut store, id("alice"), id("bob"), note("alice", &format!("n{}", n), n))
                .unwrap();
        assert_eq!(index, n);
        assert_eq!(
            load_note_meta(&store, name("alice"), id("bob")).unwrap(),
            NoteMeta { count: n + 1 }
        );
        let all = load_notes(&store, id("bob"), name("alice"), None, None).unwrap();
        assert_eq!(all.len() as u64, n + 1);
    }
    let all = load_notes(&store, id("bob"), name("alice"), None, None).unwrap();
    assert_eq!(texts(&all), vec!["n0", "n1", "n2", "n3", "n4", "n5", "n6"]);
    for (n, stored) in all.iter().enumerate() {
        assert_eq!(stored, &note("alice", &format!("n{}", n), n as u64));
    }
}

#[test]
fn indices_are_contiguous_whatever_the_interleaving() {
    let mut storage = MockStorage::new();
    let mut store = Store::new(&mut storage);
    let order = [
        ("alice", "bob"),
        ("bob", "alice"),
        ("alice", "bob"),
        ("carol", "bob"),
        ("alice", "carol"),
        ("bob", "alice"),
        ("alice", "bob"),
        ("carol", "bob"),
    ];
    let expected = [0u64, 0, 1, 0, 0, 1, 2, 1];
    for (step, (sender, recipient)) in order.iter().enumerate() {
        let text = format!("{}>{}#{}", sender, recipient, step);
        let index =
            store_note(&mut store, id(sender), id(recipient), note(sender, &text, step as u64))
                .unwrap();
        assert_eq!(index, expected[step]);
    }
    assert_eq!(load_note_meta(&store, name("alice"), id("bob")).unwrap().count, 3);
    assert_eq!(load_note_meta(&store, name("bob"), id("alice")).unwrap().count, 2);
    assert_eq!(load_note_meta(&store, name("carol"), id("bob")).unwrap().count, 2);
    assert_eq!(load_note_meta(&store, name("alice"), id("carol")).unwrap().count, 1);
    let thread = load_notes(&store, id("bob"), name("alice"), None, None).unwrap();
    assert_eq!(texts(&thread), vec!["alice>bob#0", "alice>bob#2", "alice>bob#6"]);
    let thread = load_notes(&store, id("alice"), name("bob"), None, None).unwrap();
    assert_eq!(texts(&thread), vec!["bob>alice#1", "bob>alice#5"]);
    // a thread is one direction of a pair
    assert!(matches!(
        load_note_meta(&store, name("bob"), id("carol")),
        Err(ContractError::NotFound { .. })
    ));
}

#[test]
fn senders_come_in_ascending_byte_order_without_duplicates() {
    let mut storage = MockStorage::new();
    let mut store = Store::new(&mut storage);
    for sender in ["charlie", "alice", "bob", "alice", "al", "Zed", "émile", "alicf", "charlie"] {
        store_note(&mut store, id(sender), id("bob"), note(sender, "x", 0)).unwrap();
    }
    store_note(&mut store, id("mallory"), id("bobby"), note("mallory", "x", 0)).unwrap();
    store_note(&mut store, id("bob"), id("alice"), note("bob", "x", 0)).unwrap();
    assert_eq!(
        find_senders(&store, id("bob")).unwrap(),
        vec!["Zed", "al", "alice", "alicf", "bob", "charlie", "émile"]
    );
    assert_eq!(find_senders(&store, id("bobby")).unwrap(), vec!["mallory"]);
    assert_eq!(find_senders(&store, id("alice")).unwrap(), vec!["bob"]);
    assert_eq!(find_senders(&store, id("bo")).unwrap(), Vec::<String>::new());
    assert_eq!(find_senders(&store, id("nobody")).unwrap(), Vec::<String>::new());
}

#[test]
fn fee_of_half_a_luna_on_notes() {
    let mut storage = MockStorage::new();
    let api = MockApi::default();
    let mut store = Store::new(&mut storage);
    set_up(&mut store, 1000000, 500000);
    let to = || api.addr_validate("bob").map(|a| id(a.as_str()));

    let short = exec_store_note(
        &mut store,
        &env(5),
        &info("alice", vec![coin(1, "luna")]),
        to(),
        "hi".to_string(),
    );
    assert_eq!(short, Err(ContractError::InsufficientFunds {}));
    assert!(matches!(
        load_note_meta(&store, name("alice"), id("bob")),
        Err(ContractError::NotFound { .. })
    ));

    let exact = exec_store_note(
        &mut store,
        &env(5),
        &info("alice", vec![coin(500000, "luna")]),
        to(),
        "hi".to_string(),
    )
    .unwrap();
    assert_eq!(
        exact.messages,
        vec![BankMsg::Send { to_address: "admin".to_string(), amount: vec![coin(500000, "luna")] }]
    );
    assert_eq!(
        exact.attributes,
        vec![
            Attribute { key: "method".to_string(), value: "store_note".to_string() },
            Attribute { key: "recipient".to_string(), value: "bob".to_string() },
        ]
    );

    let over = exec_store_note(
        &mut store,
        &env(6),
        &info("alice", vec![coin(750000, "luna")]),
        to(),
        "ho".to_string(),
    )
    .unwrap();
    assert_eq!(
        over.messages,
        vec![BankMsg::Send { to_address: "admin".to_string(), amount: vec![coin(750000, "luna")] }]
    );
    let stored = load_notes(&store, id("bob"), name("alice"), None, None).unwrap();
    assert_eq!(stored, vec![note("alice", "hi", 5), note("alice", "ho", 6)]);
}

#[test]
fn fee_is_taken_from_the_first_coin_of_the_currency() {
    let funds = vec![coin(9000000, "uusd"), coin(600000, "luna"), coin(1, "luna")];
    assert_eq!(find_coin(&"luna".to_string(), &funds), Some(coin(600000, "luna")));
    assert_eq!(find_coin(&"uusd".to_string(), &funds), Some(coin(9000000, "uusd")));
    assert_eq!(find_coin(&"lun".to_string(), &funds), None);
    assert_eq!(find_coin(&"luna".to_string(), &vec![]), None);

    let config = fees(Some("admin"), false);
    assert_eq!(
        collect_fee(&config, 500000, &funds),
        Ok(vec![BankMsg::Send {
            to_address: "admin".to_string(),
            amount: vec![coin(600000, "luna")]
        }])
    );
    assert_eq!(collect_fee(&config, 600001, &funds), Err(ContractError::InsufficientFunds {}));
    // a later coin of the currency does not make up for the first
    let split = vec![coin(1, "luna"), coin(600000, "luna")];
    assert_eq!(collect_fee(&config, 500000, &split), Err(ContractError::InsufficientFunds {}));
    // only the configured currency counts
    assert_eq!(
        collect_fee(&config, 500000, &vec![coin(9000000, "uusd")]),
        Err(ContractError::InsufficientFunds {})
    );
    // nothing is charged where nothing is required, whatever is attached
    assert_eq!(collect_fee(&config, 0, &funds), Ok(vec![]));
    assert_eq!(collect_fee(&config, 0, &vec![]), Ok(vec![]));
}

#[test]
fn fees_go_to_the_admin_unless_burnt() {
    let paid = coin(42, "luna");
    assert_eq!(
        get_fee_msg(&fees(Some("admin"), false), &paid),
        BankMsg::Send { to_address: "admin".to_string(), amount: vec![coin(42, "luna")] }
    );
    assert_eq!(
        get_fee_msg(&fees(Some("admin"), true), &paid),
        BankMsg::Burn { amount: vec![coin(42, "luna")] }
    );
    assert_eq!(
        get_fee_msg(&fees(None, false), &paid),
        BankMsg::Burn { amount: vec![coin(42, "luna")] }
    );
    assert_eq!(
        get_fee_msg(&fees(None, true), &paid),
        BankMsg::Burn { amount: vec![coin(42, "luna")] }
    );
}

#[test]
fn fees_are_burnt_once_the_admin_says_so() {
    let mut storage = MockStorage::new();
    let mut store = Store::new(&mut storage);
    set_up(&mut store, 1000000, 500000);
    exec_update_fees(
        &mut store,
        &info("admin", vec![]),
        Some(Ok(name("admin"))),
        7,
        9,
        "uusd".to_string(),
        true,
    )
    .unwrap();
    let reply =
        exec_update_key(&mut store, &info("alice", vec![coin(8, "uusd")]), "k".to_string())
            .unwrap();
    assert_eq!(reply.messages, vec![BankMsg::Burn { amount: vec![coin(8, "uusd")] }]);
    assert_eq!(
        exec_update_key(&mut store, &info("alice", vec![coin(6, "uusd")]), "k".to_string()),
        Err(ContractError::InsufficientFunds {})
    );
    assert_eq!(
        exec_update_key(&mut store, &info("alice", vec![coin(8, "luna")]), "k".to_string()),
        Err(ContractError::InsufficientFunds {})
    );
}

#[test]
fn only_the_current_admin_updates_fees() {
    let mut storage = MockStorage::new();
    let mut store = Store::new(&mut storage);
    set_up(&mut store, 1, 2);
    let update = |store: &mut Store, caller: &str, admin: Option<&str>| {
        exec_update_fees(
            store,
            &info(caller, vec![]),
            admin.map(|a| Ok(name(a))),
            3,
            4,
            "uusd".to_string(),
            false,
        )
    };
    assert_eq!(update(&mut store, "alice", Some("alice")), Err(ContractError::Unauthorized {}));
    assert_eq!(load_fees(&store).unwrap().admin, Some("admin".to_string()));
    assert_eq!(load_fees(&store).unwrap().store_keys, 1);

    let reply = update(&mut store, "admin", Some("alice")).unwrap();
    assert_eq!(reply.messages, vec![]);
    assert_eq!(
        reply.attributes,
        vec![Attribute { key: "method".to_string(), value: "update_fees".to_string() }]
    );
    assert_eq!(
        load_fees(&store).unwrap(),
        Fees {
            admin: Some("alice".to_string()),
            store_keys: 3,
            store_notes: 4,
            denom: "uusd".to_string(),
            burn_fees: false,
        }
    );
    assert_eq!(update(&mut store, "admin", Some("admin")), Err(ContractError::Unauthorized {}));
    update(&mut store, "alice", None).unwrap();
    // without an administrator nobody may update the fees
    assert_eq!(load_fees(&store).unwrap().admin, None);
    assert_eq!(update(&mut store, "alice", Some("alice")), Err(ContractError::Unauthorized {}));
    assert_eq!(update(&mut store, "admin", Some("admin")), Err(ContractError::Unauthorized {}));
}

#[test]
fn invalid_new_admin_is_reported_to_the_admin_only() {
    let mut storage = MockStorage::new();
    let api = MockApi::default();
    let mut store = Store::new(&mut storage);
    set_up(&mut store, 1, 2);
    let invalid = || api.addr_validate("X").map(|a| a.into_string());
    assert!(invalid().is_err());
    let by_stranger = execute(
        &mut store,
        env(1),
        info("alice", vec![]),
        ExecuteMsg::UpdateFees {
            admin: Some(invalid()),
            store_keys: 3,
            store_notes: 4,
            denom: "luna".to_string(),
            burn_fees: false,
        },
    );
    assert_eq!(by_stranger, Err(ContractError::Unauthorized {}));
    let by_admin = execute(
        &mut store,
        env(1),
        info("admin", vec![]),
        ExecuteMsg::UpdateFees {
            admin: Some(invalid()),
            store_keys: 3,
            store_notes: 4,
            denom: "luna".to_string(),
            burn_fees: false,
        },
    );
    assert_eq!(by_admin, Err(ContractError::Std(invalid().unwrap_err())));
    assert_eq!(load_fees(&store).unwrap().store_keys, 1);
}

#[test]
fn update_key_overwrites() {
    let mut storage = MockStorage::new();
    let mut store = Store::new(&mut storage);
    set_up(&mut store, 0, 0);
    assert_eq!(load_enc_key(&store, name("alice")), Ok(None));
    let reply = exec_update_key(&mut store, &info("alice", vec![]), "foo".to_string()).unwrap();
    assert_eq!(reply.messages, vec![]);
    assert_eq!(
        reply.attributes,
        vec![Attribute { key: "method".to_string(), value: "update_key".to_string() }]
    );
    assert_eq!(load_enc_key(&store, name("alice")), Ok(Some(b"foo".to_vec())));
    exec_update_key(&mut store, &info("alice", vec![]), "bar".to_string()).unwrap();
    assert_eq!(load_enc_key(&store, name("alice")), Ok(Some(b"bar".to_vec())));
    assert_eq!(load_enc_key(&store, name("bob")), Ok(None));
    assert_eq!(load_enc_key(&store, name("alic")), Ok(None));
    // any content is taken, of any length
    exec_update_key(&mut store, &info("bob", vec![]), String::new()).unwrap();
    assert_eq!(load_enc_key(&store, name("bob")), Ok(Some(vec![])));
    exec_update_key(&mut store, &info("bob", vec![]), "ключ".to_string()).unwrap();
    assert_eq!(load_enc_key(&store, name("bob")), Ok(Some("ключ".as_bytes().to_vec())));
    save_enc_key(&mut store, name("bob"), &vec![0, 255, 7]).unwrap();
    assert_eq!(load_enc_key(&store, name("bob")), Ok(Some(vec![0, 255, 7])));
    assert_eq!(load_enc_key(&store, name("alice")), Ok(Some(b"bar".to_vec())));
}

#[test]
fn pagination_of_five_notes() {
    let mut storage = MockStorage::new();
    let mut store = Store::new(&mut storage);
    for n in 0..5u64 {
        store_note(&mut store, id("alice"), id("bob"), note("alice", &format!("n{}", n), n))
            .unwrap();
    }
    let page = |start_after: Option<u64>, limit: Option<u32>| {
        texts(&load_notes(&store, id("bob"), name("alice"), start_after, limit).unwrap())
    };
    assert_eq!(page(Some(2), Some(2)), vec!["n2", "n3"]);
    assert_eq!(page(None, None), vec!["n0", "n1", "n2", "n3", "n4"]);
    assert_eq!(page(None, Some(3)), vec!["n0", "n1", "n2"]);
    assert_eq!(page(Some(0), Some(1)), vec!["n0"]);
    assert_eq!(page(Some(3), None), vec!["n3", "n4"]);
    assert_eq!(page(Some(3), Some(100)), vec!["n3", "n4"]);
    assert_eq!(page(Some(4), Some(1)), vec!["n4"]);
    assert_eq!(page(None, Some(0)), Vec::<String>::new());
    assert_eq!(page(Some(5), None), Vec::<String>::new());
    assert_eq!(page(Some(5), Some(1)), Vec::<String>::new());
    assert_eq!(page(Some(9), Some(2)), Vec::<String>::new());
    assert_eq!(page(Some(u64::MAX), Some(u32::MAX)), Vec::<String>::new());
    assert_eq!(page(Some(u64::MAX - 1), Some(5)), Vec::<String>::new());
    assert_eq!(page(Some(1), Some(u32::MAX)), vec!["n1", "n2", "n3", "n4"]);
}

#[test]
fn queries_on_a_missing_thread_are_not_found() {
    let mut storage = MockStorage::new();
    let mut store = Store::new(&mut storage);
    set_up(&mut store, 0, 0);
    store_note(&mut store, id("alice"), id("bob"), note("alice", "x", 0)).unwrap();
    assert!(matches!(
        load_note_meta(&store, name("bob"), id("alice")),
        Err(ContractError::NotFound { .. })
    ));
    assert!(matches!(
        load_notes(&store, id("alice"), name("bob"), None, None),
        Err(ContractError::NotFound { .. })
    ));
    assert!(matches!(
        query_note_count(&store, Ok(id("carol")), Ok(name("alice"))),
        Err(ContractError::NotFound { .. })
    ));
    assert!(matches!(
        query_notes(&store, Ok(id("bob")), Ok(name("carol")), Some(0), Some(1)),
        Err(ContractError::NotFound { .. })
    ));
    assert_eq!(query_note_count(&store, Ok(id("bob")), Ok(name("alice"))), Ok(1));
    assert_eq!(query_senders(&store, Ok(id("carol"))), Ok(vec![]));
}

#[test]
fn fees_are_not_found_before_the_ledger_is_set_up() {
    let mut storage = MockStorage::new();
    let mut store = Store::new(&mut storage);
    assert!(matches!(load_fees(&store), Err(ContractError::NotFound { .. })));
    assert!(matches!(query_fees(&store), Err(ContractError::NotFound { .. })));
    assert!(matches!(
        exec_update_key(&mut store, &info("alice", vec![]), "k".to_string()),
        Err(ContractError::NotFound { .. })
    ));
    assert!(matches!(
        exec_store_note(
            &mut store,
            &env(1),
            &info("alice", vec![]),
            Ok(id("bob")),
            "n".to_string()
        ),
        Err(ContractError::NotFound { .. })
    ));
    assert!(matches!(
        exec_update_fees(&mut store, &info("alice", vec![]), None, 1, 1, "luna".to_string(), false),
        Err(ContractError::NotFound { .. })
    ));
    assert_eq!(load_enc_key(&store, name("alice")), Ok(None));
    // the store is as it was: nothing was written
    assert_eq!(find_senders(&store, id("bob")), Ok(vec![]));
}

#[test]
fn setting_up_writes_the_fees_and_reports_them() {
    let mut storage = MockStorage::new();
    let mut store = Store::new(&mut storage);
    let reply = instantiate(
        &mut store,
        env(1),
        info("creator", vec![coin(5, "luna")]),
        InstantiateMsg {
            denom: "luna".to_string(),
            store_keys_fee: 1000000,
            store_notes_fee: 340282366920938463463374607431768211455,
        },
    )
    .unwrap();
    assert_eq!(reply.messages, vec![]);
    assert_eq!(
        reply.attributes,
        vec![
            Attribute { key: "method".to_string(), value: "instantiate".to_string() },
            Attribute { key: "new_store_keys_fee".to_string(), value: "1000000".to_string() },
            Attribute {
                key: "new_store_notes_fee".to_string(),
                value: "340282366920938463463374607431768211455".to_string()
            },
        ]
    );
    assert_eq!(
        load_fees(&store).unwrap(),
        Fees {
            admin: Some("creator".to_string()),
            store_keys: 1000000,
            store_notes: 340282366920938463463374607431768211455,
            denom: "luna".to_string(),
            burn_fees: false,
        }
    );
    drop(store);
    // the version is recorded beside the ledger
    assert!(storage.get(b"contract_info").is_some());
}

#[test]
fn saved_fees_read_back() {
    let mut storage = MockStorage::new();
    let mut store = Store::new(&mut storage);
    let first = Fees {
        admin: None,
        store_keys: 0,
        store_notes: u128::MAX,
        denom: "a \"quoted\" \\ denom\n".to_string(),
        burn_fees: true,
    };
    save_fees(&mut store, &first).unwrap();
    assert_eq!(load_fees(&store).unwrap(), first);
    let second = fees(Some("someone"), false);
    save_fees(&mut store, &second).unwrap();
    assert_eq!(load_fees(&store).unwrap(), second);
    assert_eq!(second.clone(), second);
}

#[test]
fn a_note_keeps_its_sender_payload_and_time() {
    let mut storage = MockStorage::new();
    let mut store = Store::new(&mut storage);
    set_up(&mut store, 0, 0);
    exec_store_note(
        &mut store,
        &env(1_571_797_419_879_305_533),
        &info("alice", vec![]),
        Ok(id("bob")),
        "héllo \"bob\"".to_string(),
    )
    .unwrap();
    exec_store_note(
        &mut store,
        &env(u64::MAX),
        &info("alice", vec![]),
        Ok(id("bob")),
        String::new(),
    )
    .unwrap();
    let stored = query_notes(&store, Ok(id("bob")), Ok(name("alice")), None, None).unwrap();
    assert_eq!(
        stored,
        vec![
            Note {
                sender: "alice".to_string(),
                note: "héllo \"bob\"".as_bytes().to_vec(),
                timestamp: 1_571_797_419_879_305_533,
            },
            Note { sender: "alice".to_string(), note: vec![], timestamp: u64::MAX },
        ]
    );
    assert_eq!(stored[0].clone(), stored[0]);
}

#[test]
fn the_fee_is_checked_before_the_recipient() {
    let mut storage = MockStorage::new();
    let api = MockApi::default();
    let mut store = Store::new(&mut storage);
    set_up(&mut store, 0, 500000);
    let invalid = || api.addr_validate("Bob").map(|a| id(a.as_str()));
    assert!(invalid().is_err());
    let unpaid = execute(
        &mut store,
        env(1),
        info("alice", vec![]),
        ExecuteMsg::StoreNote { recipient: invalid(), note: "n".to_string() },
    );
    assert_eq!(unpaid, Err(ContractError::InsufficientFunds {}));
    let paid = execute(
        &mut store,
        env(1),
        info("alice", vec![coin(500000, "luna")]),
        ExecuteMsg::StoreNote { recipient: invalid(), note: "n".to_string() },
    );
    assert_eq!(paid, Err(ContractError::Std(invalid().unwrap_err())));
    assert_eq!(find_senders(&store, id("Bob")), Ok(vec![]));
}

#[test]
fn queries_report_an_invalid_address_the_recipient_first() {
    let mut storage = MockStorage::new();
    let mut store = Store::new(&mut storage);
    set_up(&mut store, 0, 0);
    let bad = |text: &str| Err::<Identity, StdError>(StdError::generic_err(text));
    let bad_address = |text: &str| Err::<String, StdError>(StdError::generic_err(text));
    assert_eq!(
        query_note_count(&store, bad("recipient"), bad_address("sender")),
        Err(ContractError::Std(StdError::generic_err("recipient")))
    );
    assert_eq!(
        query_note_count(&store, Ok(id("bob")), bad_address("sender")),
        Err(ContractError::Std(StdError::generic_err("sender")))
    );
    assert_eq!(
        query_notes(&store, bad("recipient"), bad_address("sender"), None, None),
        Err(ContractError::Std(StdError::generic_err("recipient")))
    );
    assert_eq!(
        query_notes(&store, Ok(id("bob")), bad_address("sender"), None, None),
        Err(ContractError::Std(StdError::generic_err("sender")))
    );
    assert_eq!(
        query_senders(&store, bad("recipient")),
        Err(ContractError::Std(StdError::generic_err("recipient")))
    );
    assert_eq!(
        query_enc_key(&store, bad_address("address")),
        Err(ContractError::Std(StdError::generic_err("address")))
    );
    assert_eq!(
        query(&store, env(1), QueryMsg::Senders { recipient: bad("recipient") }),
        Err(ContractError::Std(StdError::generic_err("recipient")))
    );
}

#[test]
fn each_query_gets_the_answer_of_its_kind() {
    let mut storage = MockStorage::new();
    let mut store = Store::new(&mut storage);
    set_up(&mut store, 0, 0);
    exec_update_key(&mut store, &info("alice", vec![]), "key".to_string()).unwrap();
    exec_store_note(&mut store, &env(3), &info("alice", vec![]), Ok(id("bob")), "n".to_string())
        .unwrap();
    assert_eq!(
        query(&store, env(9), QueryMsg::Fees {}),
        Ok(QueryResponse::Fees(Fees {
            admin: Some("admin".to_string()),
            store_keys: 0,
            store_notes: 0,
            denom: "luna".to_string(),
            burn_fees: false,
        }))
    );
    assert_eq!(
        query(&store, env(9), QueryMsg::EncryptionKey { address: Ok(name("alice")) }),
        Ok(QueryResponse::EncryptionKey(EncryptionKeyResponse { key: Some(b"key".to_vec()) }))
    );
    assert_eq!(
        query(&store, env(9), QueryMsg::EncryptionKey { address: Ok(name("bob")) }),
        Ok(QueryResponse::EncryptionKey(EncryptionKeyResponse { key: None }))
    );
    assert_eq!(
        query(
            &store,
            env(9),
            QueryMsg::NoteCount { recipient: Ok(id("bob")), sender: Ok(name("alice")) }
        ),
        Ok(QueryResponse::NoteCount(1))
    );
    assert_eq!(
        query(&store, env(9), QueryMsg::Senders { recipient: Ok(id("bob")) }),
        Ok(QueryResponse::Senders(vec!["alice".to_string()]))
    );
    assert_eq!(
        query(
            &store,
            env(9),
            QueryMsg::Notes {
                recipient: Ok(id("bob")),
                sender: Ok(name("alice")),
                start_after: None,
                limit: Some(10)
            }
        ),
        Ok(QueryResponse::Notes(vec![note("alice", "n", 3)]))
    );
}

#[test]
fn records_that_do_not_read_back_are_reported() {
    let mut storage = MockStorage::new();
    storage.set(b"fees", b"not a fee record");
    let mut store = Store::new(&mut storage);
    assert!(matches!(load_fees(&store), Err(ContractError::Std(_))));
    assert!(matches!(
        exec_update_key(&mut store, &info("alice", vec![]), "k".to_string()),
        Err(ContractError::Std(_))
    ));
    // writing the record anew mends it
    save_fees(&mut store, &fees(Some("admin"), false)).unwrap();
    assert_eq!(load_fees(&store).unwrap(), fees(Some("admin"), false));
}

#[test]
fn a_full_thread_takes_no_further_note() {
    let mut storage = MockStorage::new();
    // the thread from alice to bob, with the highest count there is
    storage.set(b"\x00\x0bnote_counts\x00\x03bobalice", b"18446744073709551615");
    let mut store = Store::new(&mut storage);
    assert_eq!(load_note_meta(&store, name("alice"), id("bob")).unwrap().count, u64::MAX);
    let refused = store_note(&mut store, id("alice"), id("bob"), note("alice", "x", 0));
    assert!(matches!(refused, Err(ContractError::Std(StdError::Overflow { .. }))));
    assert_eq!(load_note_meta(&store, name("alice"), id("bob")).unwrap().count, u64::MAX);
}

#[test]
fn a_missing_note_fails_the_page() {
    let mut storage = MockStorage::new();
    // a thread that counts two notes and holds none
    storage.set(b"\x00\x0bnote_counts\x00\x03bobalice", b"2");
    let store = Store::new(&mut storage);
    assert!(matches!(
        load_notes(&store, id("bob"), name("alice"), None, None),
        Err(ContractError::NotFound { .. })
    ));
    assert_eq!(load_notes(&store, id("bob"), name("alice"), Some(2), None), Ok(vec![]));
    assert_eq!(load_notes(&store, id("bob"), name("alice"), None, Some(0)), Ok(vec![]));
}

#[test]
fn errors_name_their_kind() {
    assert_eq!(ContractError::Unauthorized {}.message(), "Unauthorized");
    assert_eq!(ContractError::InsufficientFunds {}.message(), "Insufficient funds");
    assert_eq!(
        ContractError::NotFound { kind: "a thread".to_string() }.message(),
        "a thread not found"
    );
    assert_eq!(ContractError::NotFound { kind: String::new() }.message(), " not found");
    assert_eq!(
        ContractError::Std(StdError::generic_err("out of reach")).message(),
        "Generic error: out of reach"
    );
    let mut storage = MockStorage::new();
    let store = Store::new(&mut storage);
    let missing = load_note_meta(&store, name("alice"), id("bob")).unwrap_err();
    assert!(missing.message().ends_with(" not found"));
    assert!(missing.message().len() > " not found".len());
}

#[test]
fn amounts_are_written_in_decimal_digits() {
    assert_eq!(amount_text(0), "0");
    assert_eq!(amount_text(7), "7");
    assert_eq!(amount_text(9), "9");
    assert_eq!(amount_text(10), "10");
    assert_eq!(amount_text(109), "109");
    assert_eq!(amount_text(500000), "500000");
    assert_eq!(amount_text(1234567890), "1234567890");
    assert_eq!(amount_text(u128::MAX), "340282366920938463463374607431768211455");
    for n in [0u128, 1, 99, 100, 101, 65535, 18446744073709551616] {
        assert_eq!(amount_text(n), n.to_string());
    }
}

#[test]
fn what_is_stored_stays_as_it_was() {
    let mut storage = MockStorage::new();
    let mut store = Store::new(&mut storage);
    set_up(&mut store, 0, 0);
    exec_update_key(&mut store, &info("alice", vec![]), "alice-key".to_string()).unwrap();
    exec_store_note(&mut store, &env(1), &info("alice", vec![]), Ok(id("bob")), "1".to_string())
        .unwrap();
    exec_store_note(&mut store, &env(2), &info("alice", vec![]), Ok(id("bob")), "2".to_string())
        .unwrap();
    let early = load_notes(&store, id("bob"), name("alice"), None, None).unwrap();

    exec_update_key(&mut store, &info("bob", vec![]), "bob-key".to_string()).unwrap();
    exec_update_fees(&mut store, &info("admin", vec![]), None, 5, 5, "uusd".to_string(), true)
        .unwrap();
    let paid = || info("carol", vec![coin(5, "uusd")]);
    exec_store_note(&mut store, &env(3), &paid(), Ok(id("bob")), "3".to_string()).unwrap();
    exec_store_note(&mut store, &env(4), &paid(), Ok(id("alice")), "4".to_string()).unwrap();
    exec_store_note(&mut store, &env(5), &info("alice", vec![]), Ok(id("bob")), "5".to_string())
        .unwrap_err();
    exec_update_fees(&mut store, &info("admin", vec![]), None, 0, 0, "luna".to_string(), false)
        .unwrap_err();

    assert!(load_fees(&store).is_ok());
    assert_eq!(load_enc_key(&store, name("alice")), Ok(Some(b"alice-key".to_vec())));
    assert_eq!(load_enc_key(&store, name("bob")), Ok(Some(b"bob-key".to_vec())));
    assert_eq!(load_notes(&store, id("bob"), name("alice"), None, None).unwrap(), early);
    assert_eq!(load_note_meta(&store, name("alice"), id("bob")).unwrap().count, 2);
    assert_eq!(load_note_meta(&store, name("carol"), id("bob")).unwrap().count, 1);
    assert_eq!(find_senders(&store, id("bob")).unwrap(), vec!["alice", "carol"]);
}

#[test]
fn a_store_is_fresh_until_something_is_written() {
    let mut storage = MockStorage::new();
    let mut store = Store::new(&mut storage);
    assert!(store.is_fresh());
    assert!(matches!(load_fees(&store), Err(ContractError::NotFound { .. })));
    assert!(store.is_fresh());
    set_up(&mut store, 0, 0);
    assert!(!store.is_fresh());
    drop(store);
    let mut other = MockStorage::new();
    other.set(b"something else", b"1");
    assert!(!Store::new(&mut other).is_fresh());
}

#[test]
fn writes_succeed_whatever_the_record_holds() {
    let mut storage = MockStorage::new();
    let mut store = Store::new(&mut storage);
    let odd = "\u{0}\u{1f}\"\\/\u{7f}é\u{10ffff}".to_string();
    let config = Fees {
        admin: Some(odd.clone()),
        store_keys: 0,
        store_notes: 0,
        denom: odd.clone(),
        burn_fees: false,
    };
    assert_eq!(save_fees(&mut store, &config), Ok(()));
    assert_eq!(load_fees(&store), Ok(config));
    let long = "k".repeat(70000);
    assert_eq!(save_enc_key(&mut store, long.clone(), &(0..=255u8).collect()), Ok(()));
    assert_eq!(load_enc_key(&store, long), Ok(Some((0..=255u8).collect())));
    assert_eq!(save_enc_key(&mut store, odd.clone(), &vec![]), Ok(()));
    assert_eq!(load_enc_key(&store, odd.clone()), Ok(Some(vec![])));
    let stored = Note { sender: odd.clone(), note: (0..=255u8).collect(), timestamp: 0 };
    assert_eq!(store_note(&mut store, id(&odd), id(""), stored.clone()), Ok(0));
    assert_eq!(load_notes(&store, id(""), name(&odd), None, None), Ok(vec![stored]));
    assert_eq!(find_senders(&store, id("")), Ok(vec![odd]));
}

#[test]
fn a_sender_too_long_for_a_key_sets_keys_but_stores_no_note() {
    let mut storage = MockStorage::new();
    let mut store = Store::new(&mut storage);
    let long = "s".repeat(65536);
    instantiate(
        &mut store,
        env(1),
        info(&long, vec![]),
        InstantiateMsg { denom: "luna".to_string(), store_keys_fee: 0, store_notes_fee: 5 },
    )
    .unwrap();
    assert_eq!(load_fees(&store).unwrap().admin, Some(long.clone()));
    exec_update_key(&mut store, &info(&long, vec![]), "key".to_string()).unwrap();
    assert_eq!(load_enc_key(&store, long.clone()), Ok(Some(b"key".to_vec())));
    let admin = Some(Ok(long.clone()));
    exec_update_fees(&mut store, &info(&long, vec![]), admin, 0, 5, name("luna"), true).unwrap();
    // the fee comes first, then the sender
    assert_eq!(
        exec_store_note(&mut store, &env(1), &info(&long, vec![]), Ok(id("bob")), name("n")),
        Err(ContractError::InsufficientFunds {})
    );
    let refused = exec_store_note(
        &mut store,
        &env(1),
        &info(&long, vec![coin(5, "luna")]),
        Ok(id("bob")),
        name("n"),
    );
    assert!(matches!(refused, Err(ContractError::Std(_))));
    assert_eq!(find_senders(&store, id("bob")), Ok(vec![]));
    // one byte less fits
    let fitting = "s".repeat(65535);
    exec_store_note(
        &mut store,
        &env(1),
        &info(&fitting, vec![coin(5, "luna")]),
        Ok(id("bob")),
        name("n"),
    )
    .unwrap();
    assert_eq!(find_senders(&store, id("bob")), Ok(vec![fitting]));
}

#[test]
fn a_sender_too_long_for_a_key_has_no_thread() {
    let mut storage = MockStorage::new();
    // a count under a sender that no note can be stored for
    let long = "s".repeat(65536);
    let mut key = b"\x00\x0bnote_counts\x00\x03bob".to_vec();
    key.extend_from_slice(long.as_bytes());
    storage.set(&key, b"2");
    let store = Store::new(&mut storage);
    assert!(matches!(
        load_note_meta(&store, "t".repeat(65536), id("bob")),
        Err(ContractError::NotFound { .. })
    ));
    assert!(matches!(
        load_notes(&store, id("bob"), "t".repeat(65536), None, None),
        Err(ContractError::NotFound { .. })
    ));
    assert_eq!(load_note_meta(&store, long.clone(), id("bob")), Ok(NoteMeta { count: 2 }));
    assert_eq!(load_notes(&store, id("bob"), long.clone(), Some(2), None), Ok(vec![]));
    assert!(matches!(
        load_notes(&store, id("bob"), long.clone(), None, None),
        Err(ContractError::Std(_))
    ));
    assert_eq!(find_senders(&store, id("bob")), Ok(vec![long]));
}
