use ambur_registry::contract::{
    execute, instantiate, migrate, minter_query, page_of, pending_lookup, query, reply,
    MinterQuery, CONTRACT_NAME, CONTRACT_VERSION, LIMIT, MAX_LIMIT,
};
use ambur_registry::error::ContractError;
use ambur_registry::msg::{
    ExecuteMsg, InstantiateMsg, MigrateMsg, Page, QueryMsg, QueryResponse, RegisterMsg, Reply,
    Response, SetAdminMsg, UnregisterMsg,
};
use ambur_registry::state::RegistryItem;
use cosmwasm_std::{Addr, MemoryStorage, Storage};

fn s(text: &str) -> String {
    text.to_string()
}

fn attr(key: &str, value: &str) -> (String, String) {
    (s(key), s(value))
}

fn fresh(admin: &str) -> MemoryStorage {
    let mut store = MemoryStorage::new();
    let msg = InstantiateMsg { admin: None, registry: vec![] };
    instantiate(&mut store, &s(admin), msg, &vec![]).unwrap();
    store
}

fn register(store: &mut MemoryStorage, sender: &str, cw721: &str, minter: &str) -> Response {
    let msg = ExecuteMsg::Register(RegisterMsg { cw721: s(cw721) });
    execute(store, &s(sender), msg, Some(s(minter))).unwrap()
}

fn unregister(store: &mut MemoryStorage, sender: &str, cw721: &str) -> Response {
    let msg = ExecuteMsg::Unregister(UnregisterMsg { cw721: s(cw721) });
    execute(store, &s(sender), msg, None).unwrap()
}

fn registered(store: &MemoryStorage, cw721: &str) -> bool {
    match query(store, QueryMsg::Registered { cw721: s(cw721) }).unwrap() {
        QueryResponse::Registered(found) => found,
        other => panic!("unexpected answer {:?}", other),
    }
}

fn admin(store: &MemoryStorage) -> String {
    match query(store, QueryMsg::Config {}).unwrap() {
        QueryResponse::Config(found) => found,
        other => panic!("unexpected answer {:?}", other),
    }
}

fn listing(store: &MemoryStorage, page: Option<u32>, limit: Option<u32>) -> Page {
    match query(store, QueryMsg::Registry { page, limit }).unwrap() {
        QueryResponse::Registry(found) => found,
        other => panic!("unexpected answer {:?}", other),
    }
}

fn snapshot(store: &MemoryStorage) -> String {
    format!("{:?}", store)
}

fn item(cw721: &str, minter: &str) -> RegistryItem {
    RegistryItem::new(s(cw721), s(minter))
}

#[test]
fn instantiate_defaults_admin_to_sender_and_leaves_registry_empty() {
    let mut store = MemoryStorage::new();
    let msg = InstantiateMsg { admin: None, registry: vec![] };
    let response = instantiate(&mut store, &s("C1"), msg, &vec![]).unwrap();
    assert_eq!(response.attributes, vec![attr("action", "instantiate")]);
    assert_eq!(response.registered, vec![]);
    assert_eq!(admin(&store), "C1");
    let page = listing(&store, None, None);
    assert_eq!(page, Page { registered: vec![], page: 0, total: 0 });
    assert!(!registered(&store, "X"));
}

#[test]
fn instantiate_takes_the_named_admin() {
    let mut store = MemoryStorage::new();
    let msg = InstantiateMsg { admin: Some(s("boss")), registry: vec![] };
    instantiate(&mut store, &s("C1"), msg, &vec![]).unwrap();
    assert_eq!(admin(&store), "boss");
}

#[test]
fn instantiate_registers_collections_in_order() {
    let mut store = MemoryStorage::new();
    let msg = InstantiateMsg { admin: None, registry: vec![s("b"), s("a"), s("b")] };
    let resolved = vec![Some(s("m1")), Some(s("m2")), Some(s("m3"))];
    let response = instantiate(&mut store, &s("C1"), msg, &resolved).unwrap();
    assert_eq!(response.registered, vec![item("b", "m1"), item("a", "m2"), item("b", "m3")]);
    let page = listing(&store, None, None);
    assert_eq!(page.registered, vec![item("a", "m2"), item("b", "m3")]);
    assert_eq!(page.total, 2);
}

#[test]
fn instantiate_fails_on_a_failed_lookup_and_writes_nothing() {
    let mut store = MemoryStorage::new();
    let before = snapshot(&store);
    let msg = InstantiateMsg { admin: None, registry: vec![s("a"), s("b")] };
    let resolved = vec![Some(s("m1")), None];
    let result = instantiate(&mut store, &s("C1"), msg, &resolved);
    assert_eq!(result, Err(ContractError::RemoteLookupFailed));
    assert_eq!(snapshot(&store), before);
}

#[test]
fn instantiate_fails_where_a_lookup_is_missing() {
    let mut store = MemoryStorage::new();
    let msg = InstantiateMsg { admin: None, registry: vec![s("a"), s("b")] };
    let result = instantiate(&mut store, &s("C1"), msg, &vec![Some(s("m1"))]);
    assert_eq!(result, Err(ContractError::RemoteLookupFailed));
    assert_eq!(query(&store, QueryMsg::Config {}), Err(ContractError::NotFound));
}

#[test]
fn instantiate_writes_records_where_the_storage_crates_read_them() {
    let mut store = MemoryStorage::new();
    let msg = InstantiateMsg { admin: None, registry: vec![s("X")] };
    instantiate(&mut store, &s("C1"), msg, &vec![Some(s("M1"))]).unwrap();
    let stored_admin = cw_storage_plus::Item::<Addr>::new("admin").load(&store).unwrap();
    assert_eq!(stored_admin, Addr::unchecked("C1"));
    let stored_minter = cw_storage_plus::Map::<Addr, Addr>::new("collections")
        .load(&store, Addr::unchecked("X"))
        .unwrap();
    assert_eq!(stored_minter, Addr::unchecked("M1"));
    let version = cw2::get_contract_version(&store).unwrap();
    assert_eq!(version.contract, "ambur-registry");
    assert_eq!(version.version, "0.1.0");
    assert_eq!(CONTRACT_NAME, "ambur-registry");
    assert_eq!(CONTRACT_VERSION, "0.1.0");
}

#[test]
fn register_by_admin_stores_the_resolved_minter() {
    let mut store = fresh("C1");
    let response = register(&mut store, "C1", "X", "M1");
    assert_eq!(
        response.attributes,
        vec![attr("action", "register"), attr("cw721", "X"), attr("minter", "M1")]
    );
    assert_eq!(response.registered, vec![]);
    assert!(registered(&store, "X"));
    let page = listing(&store, None, None);
    assert_eq!(page, Page { registered: vec![item("X", "M1")], page: 0, total: 1 });
}

#[test]
fn register_again_replaces_the_minter() {
    let mut store = fresh("C1");
    register(&mut store, "C1", "X", "M1");
    register(&mut store, "C1", "X", "M2");
    let page = listing(&store, None, None);
    assert_eq!(page.registered, vec![item("X", "M2")]);
    assert_eq!(page.total, 1);
}

#[test]
fn register_fails_where_the_lookup_failed() {
    let mut store = fresh("C1");
    let before = snapshot(&store);
    let msg = ExecuteMsg::Register(RegisterMsg { cw721: s("X") });
    let result = execute(&mut store, &s("C1"), msg, None);
    assert_eq!(result, Err(ContractError::RemoteLookupFailed));
    assert_eq!(snapshot(&store), before);
    assert!(!registered(&store, "X"));
}

#[test]
fn unregister_removes_the_entry_and_reports_its_minter() {
    let mut store = fresh("C1");
    register(&mut store, "C1", "X", "M1");
    register(&mut store, "C1", "Y", "M2");
    let response = unregister(&mut store, "C1", "X");
    assert_eq!(
        response.attributes,
        vec![attr("action", "unregister"), attr("cw721", "X"), attr("minter", "M1")]
    );
    assert!(!registered(&store, "X"));
    assert!(registered(&store, "Y"));
    assert_eq!(listing(&store, None, None).registered, vec![item("Y", "M2")]);
}

#[test]
fn unregister_unknown_succeeds_with_empty_minter() {
    let mut store = fresh("C1");
    register(&mut store, "C1", "Y", "M2");
    let before = snapshot(&store);
    let response = unregister(&mut store, "C1", "X");
    assert_eq!(
        response.attributes,
        vec![attr("action", "unregister"), attr("cw721", "X"), attr("minter", "")]
    );
    assert_eq!(snapshot(&store), before);
}

#[test]
fn unregister_by_stranger_is_unauthorized_and_changes_nothing() {
    let mut store = fresh("C1");
    register(&mut store, "C1", "X", "M1");
    let before = snapshot(&store);
    let msg = ExecuteMsg::Unregister(UnregisterMsg { cw721: s("X") });
    let result = execute(&mut store, &s("C2"), msg, None);
    assert_eq!(result, Err(ContractError::Unauthorized));
    assert_eq!(snapshot(&store), before);
    assert!(registered(&store, "X"));
}

#[test]
fn every_change_by_a_stranger_is_unauthorized() {
    let mut store = fresh("C1");
    register(&mut store, "C1", "X", "M1");
    let before = snapshot(&store);
    let msgs = vec![
        ExecuteMsg::Register(RegisterMsg { cw721: s("Z") }),
        ExecuteMsg::Unregister(UnregisterMsg { cw721: s("X") }),
        ExecuteMsg::SetAdmin(SetAdminMsg { admin: s("C2") }),
    ];
    for msg in msgs {
        let result = execute(&mut store, &s("C2"), msg, Some(s("M9")));
        assert_eq!(result, Err(ContractError::Unauthorized));
        assert_eq!(snapshot(&store), before);
    }
    assert_eq!(admin(&store), "C1");
}

#[test]
fn stranger_with_failed_lookup_is_still_unauthorized() {
    let mut store = fresh("C1");
    let msg = ExecuteMsg::Register(RegisterMsg { cw721: s("Z") });
    assert_eq!(execute(&mut store, &s("C2"), msg, None), Err(ContractError::Unauthorized));
}

#[test]
fn execute_before_instantiate_is_not_found() {
    let mut store = MemoryStorage::new();
    let msg = ExecuteMsg::SetAdmin(SetAdminMsg { admin: s("C1") });
    assert_eq!(execute(&mut store, &s("C1"), msg, None), Err(ContractError::NotFound));
    assert_eq!(query(&store, QueryMsg::Config {}), Err(ContractError::NotFound));
    assert_eq!(snapshot(&store), snapshot(&MemoryStorage::new()));
}

#[test]
fn unreadable_admin_record_is_a_storage_failure() {
    let mut store = MemoryStorage::new();
    store.set(b"admin", b"{not json");
    let msg = ExecuteMsg::SetAdmin(SetAdminMsg { admin: s("C1") });
    assert_eq!(execute(&mut store, &s("C1"), msg, None), Err(ContractError::Storage));
    assert_eq!(query(&store, QueryMsg::Config {}), Err(ContractError::Storage));
}

#[test]
fn unreadable_entry_fails_the_listing_and_unregisters_with_empty_minter() {
    let mut store = fresh("C1");
    register(&mut store, "C1", "A", "M1");
    let mut key = vec![0u8, 11u8];
    key.extend_from_slice(b"collections");
    key.extend_from_slice(b"X");
    store.set(&key, b"{not json");
    assert!(registered(&store, "X"));
    assert_eq!(
        query(&store, QueryMsg::Registry { page: None, limit: None }),
        Err(ContractError::Storage)
    );
    let response = unregister(&mut store, "C1", "X");
    assert_eq!(response.attributes[2], attr("minter", ""));
    assert!(!registered(&store, "X"));
    assert_eq!(listing(&store, None, None).registered, vec![item("A", "M1")]);
}

#[test]
fn set_admin_hands_over_and_reports() {
    let mut store = fresh("C1");
    register(&mut store, "C1", "X", "M1");
    let msg = ExecuteMsg::SetAdmin(SetAdminMsg { admin: s("C2") });
    let response = execute(&mut store, &s("C1"), msg, None).unwrap();
    assert_eq!(response.attributes, vec![attr("action", "set_admin"), attr("admin", "C2")]);
    assert_eq!(admin(&store), "C2");
    assert!(registered(&store, "X"));
    let msg = ExecuteMsg::Register(RegisterMsg { cw721: s("Y") });
    assert_eq!(execute(&mut store, &s("C1"), msg, Some(s("M"))), Err(ContractError::Unauthorized));
    register(&mut store, "C2", "Y", "M2");
    assert!(registered(&store, "Y"));
}

#[test]
fn set_admin_twice_equals_once() {
    let mut once = fresh("C1");
    let msg = ExecuteMsg::SetAdmin(SetAdminMsg { admin: s("C1") });
    execute(&mut once, &s("C1"), msg.clone(), None).unwrap();
    let mut twice = fresh("C1");
    execute(&mut twice, &s("C1"), msg.clone(), None).unwrap();
    execute(&mut twice, &s("C1"), msg, None).unwrap();
    assert_eq!(snapshot(&once), snapshot(&twice));

    let mut once = fresh("C1");
    let msg = ExecuteMsg::SetAdmin(SetAdminMsg { admin: s("C2") });
    execute(&mut once, &s("C1"), msg.clone(), None).unwrap();
    let mut twice = fresh("C1");
    execute(&mut twice, &s("C1"), msg.clone(), None).unwrap();
    assert_eq!(execute(&mut twice, &s("C1"), msg, None), Err(ContractError::Unauthorized));
    assert_eq!(snapshot(&once), snapshot(&twice));
    assert_eq!(admin(&twice), "C2");
}

#[test]
fn replay_leaves_the_net_effect() {
    let mut store = fresh("C1");
    register(&mut store, "C1", "a", "m1");
    register(&mut store, "C1", "b", "m2");
    unregister(&mut store, "C1", "a");
    unregister(&mut store, "C1", "zz");
    register(&mut store, "C1", "c", "m3");
    register(&mut store, "C1", "b", "m4");
    register(&mut store, "C1", "a", "m5");
    unregister(&mut store, "C1", "c");
    assert!(registered(&store, "a"));
    assert!(registered(&store, "b"));
    assert!(!registered(&store, "c"));
    assert!(!registered(&store, "zz"));
    let page = listing(&store, None, None);
    assert_eq!(page.registered, vec![item("a", "m5"), item("b", "m4")]);
}

#[test]
fn registered_follows_every_change() {
    let mut store = fresh("C1");
    assert!(!registered(&store, "X"));
    register(&mut store, "C1", "X", "M1");
    assert!(registered(&store, "X"));
    assert!(!registered(&store, "x"));
    unregister(&mut store, "C1", "X");
    assert!(!registered(&store, "X"));
}

#[test]
fn listing_is_ascending_by_collection() {
    let mut store = fresh("C1");
    for name in ["b", "ab", "c", "a", "B", "aa"] {
        register(&mut store, "C1", name, "m");
    }
    let names: Vec<String> =
        listing(&store, None, None).registered.into_iter().map(|entry| entry.cw721).collect();
    assert_eq!(names, vec![s("B"), s("a"), s("aa"), s("ab"), s("b"), s("c")]);
}

#[test]
fn registry_pages_of_120_entries() {
    let mut store = fresh("C1");
    for i in 0..120 {
        register(&mut store, "C1", &format!("c{:03}", i), &format!("m{:03}", i));
    }
    let page = listing(&store, Some(2), None);
    assert_eq!(page.page, 2);
    assert_eq!(page.total, 20);
    assert_eq!(page.registered.len(), 20);
    for (offset, entry) in page.registered.iter().enumerate() {
        assert_eq!(entry.cw721, format!("c{:03}", 100 + offset));
        assert_eq!(entry.minter, format!("m{:03}", 100 + offset));
    }
    let page = listing(&store, Some(3), None);
    assert_eq!(page, Page { registered: vec![], page: 3, total: 0 });
    let page = listing(&store, Some(0), None);
    assert_eq!(page.total, 50);
    assert_eq!(page.registered[0].cw721, "c000");
    assert_eq!(page.registered[49].cw721, "c049");
    let page = listing(&store, None, Some(1000));
    assert_eq!(page.total, 100);
    assert_eq!(page.registered[99].cw721, "c099");
    let page = listing(&store, Some(1), Some(1000));
    assert_eq!(page.total, 20);
    assert_eq!(page.registered[0].cw721, "c100");
}

fn pairs(count: usize) -> Vec<(String, String)> {
    (0..count).map(|i| (format!("c{:03}", i), format!("m{:03}", i))).collect()
}

#[test]
fn page_of_cuts_the_slice() {
    let items = pairs(7);
    let page = page_of(&items, 3, 1);
    assert_eq!(
        page,
        Page {
            registered: vec![item("c003", "m003"), item("c004", "m004"), item("c005", "m005")],
            page: 1,
            total: 3,
        }
    );
    let page = page_of(&items, 3, 2);
    assert_eq!(page, Page { registered: vec![item("c006", "m006")], page: 2, total: 1 });
    let page = page_of(&items, 3, 3);
    assert_eq!(page, Page { registered: vec![], page: 3, total: 0 });
    let page = page_of(&items, 7, 1);
    assert_eq!(page, Page { registered: vec![], page: 1, total: 0 });
}

#[test]
fn page_of_edge_cases() {
    let items = pairs(150);
    assert_eq!(page_of(&items, 0, 0), Page { registered: vec![], page: 0, total: 0 });
    assert_eq!(page_of(&items, 0, 5), Page { registered: vec![], page: 5, total: 0 });
    let page = page_of(&items, MAX_LIMIT + 1, 0);
    assert_eq!(page.total, 100);
    let page = page_of(&items, u32::MAX, 1);
    assert_eq!(page.total, 50);
    assert_eq!(page.registered[0].cw721, "c100");
    let page = page_of(&items, 100, u32::MAX);
    assert_eq!(page, Page { registered: vec![], page: u32::MAX, total: 0 });
    let page = page_of(&items, u32::MAX, u32::MAX);
    assert_eq!(page, Page { registered: vec![], page: u32::MAX, total: 0 });
    assert_eq!(page_of(&vec![], LIMIT, 0), Page { registered: vec![], page: 0, total: 0 });
    assert_eq!(LIMIT, 50);
    assert_eq!(MAX_LIMIT, 100);
}

#[test]
fn migrate_from_older_version_moves_the_version_forward() {
    let mut store = fresh("C1");
    register(&mut store, "C1", "X", "M1");
    cw2::set_contract_version(&mut store, "ambur-registry", "0.0.9").unwrap();
    let response = migrate(&mut store, MigrateMsg {}).unwrap();
    assert_eq!(response, Response { attributes: vec![], registered: vec![] });
    let version = cw2::get_contract_version(&store).unwrap();
    assert_eq!(version.contract, "ambur-registry");
    assert_eq!(version.version, "0.1.0");
    assert_eq!(admin(&store), "C1");
    assert!(registered(&store, "X"));
}

#[test]
fn migrate_rejects_same_or_newer_version() {
    let mut store = fresh("C1");
    let before = snapshot(&store);
    assert_eq!(migrate(&mut store, MigrateMsg {}), Err(ContractError::InvalidInput));
    assert_eq!(snapshot(&store), before);
    cw2::set_contract_version(&mut store, "ambur-registry", "0.2.0").unwrap();
    assert_eq!(migrate(&mut store, MigrateMsg {}), Err(ContractError::InvalidInput));
    cw2::set_contract_version(&mut store, "ambur-registry", "0.1.0.1").unwrap();
    assert_eq!(migrate(&mut store, MigrateMsg {}), Err(ContractError::InvalidInput));
    cw2::set_contract_version(&mut store, "ambur-registry", "0.1").unwrap();
    assert!(migrate(&mut store, MigrateMsg {}).is_ok());
}

#[test]
fn migrate_compares_versions_as_text() {
    let mut store = fresh("C1");
    cw2::set_contract_version(&mut store, "ambur-registry", "0.0.10").unwrap();
    assert!(migrate(&mut store, MigrateMsg {}).is_ok());
    cw2::set_contract_version(&mut store, "ambur-registry", "0.10.0").unwrap();
    assert_eq!(migrate(&mut store, MigrateMsg {}), Err(ContractError::InvalidInput));
}

#[test]
fn migrate_rejects_another_contract() {
    let mut store = fresh("C1");
    cw2::set_contract_version(&mut store, "other-contract", "0.0.1").unwrap();
    let before = snapshot(&store);
    assert_eq!(migrate(&mut store, MigrateMsg {}), Err(ContractError::InvalidInput));
    assert_eq!(snapshot(&store), before);
}

#[test]
fn migrate_without_version_record_is_not_found() {
    let mut store = MemoryStorage::new();
    assert_eq!(migrate(&mut store, MigrateMsg {}), Err(ContractError::NotFound));
    store.set(b"contract_info", b"[1,2");
    assert_eq!(migrate(&mut store, MigrateMsg {}), Err(ContractError::Storage));
}

#[test]
fn reply_follows_the_sub_message() {
    let ok = reply(Reply { id: 1, succeeded: true });
    assert_eq!(ok, Ok(Response { attributes: vec![], registered: vec![] }));
    let failed = reply(Reply { id: 1, succeeded: false });
    assert_eq!(failed, Err(ContractError::Unauthorized));
}

#[test]
fn registry_item_new_puts_fields_in_place() {
    let entry = RegistryItem::new(s("collection"), s("minter"));
    assert_eq!(entry.cw721, "collection");
    assert_eq!(entry.minter, "minter");
}

#[test]
fn response_collects_attributes_in_order() {
    let response = Response::new().add_attribute("a", s("1")).add_attribute("b", s("2"));
    assert_eq!(response.attributes, vec![attr("a", "1"), attr("b", "2")]);
    assert_eq!(response.registered, vec![]);
}

#[test]
fn error_messages_name_the_kind() {
    assert_eq!(ContractError::Unauthorized.message(), "Unauthorized");
    assert_eq!(ContractError::NotFound.message(), "NotFound");
    assert_eq!(ContractError::RemoteLookupFailed.message(), "RemoteLookupFailed");
    assert_eq!(ContractError::InvalidInput.message(), "InvalidInput");
    assert_eq!(ContractError::Storage.message(), "Storage");
}

#[test]
fn minter_query_asks_the_collection_itself() {
    let lookup = minter_query(&s("collection-1"));
    assert_eq!(lookup.contract_addr, "collection-1");
    assert_eq!(lookup.msg, b"{\"minter\":{}}".to_vec());
    assert_eq!(lookup.msg.len(), 13);
}

#[test]
fn only_a_registration_by_the_admin_needs_a_lookup() {
    let store = fresh("C1");
    let register = ExecuteMsg::Register(RegisterMsg { cw721: s("X") });
    let expected = MinterQuery { contract_addr: s("X"), msg: b"{\"minter\":{}}".to_vec() };
    assert_eq!(pending_lookup(&store, &s("C1"), &register), Some(expected));
    assert_eq!(pending_lookup(&store, &s("C2"), &register), None);
    let unregister = ExecuteMsg::Unregister(UnregisterMsg { cw721: s("X") });
    assert_eq!(pending_lookup(&store, &s("C1"), &unregister), None);
    let set_admin = ExecuteMsg::SetAdmin(SetAdminMsg { admin: s("C2") });
    assert_eq!(pending_lookup(&store, &s("C1"), &set_admin), None);
    assert_eq!(pending_lookup(&MemoryStorage::new(), &s("C1"), &register), None);
}
