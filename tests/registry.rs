use cosmwasm_std::MemoryStorage;
use alias_registry::{
    load, may_load, remove, save, AddressesAliasesReadonlyStorage,
    AddressesAliasesStorage, Alias, AliasesReadonlyStorage, AliasesStorage, HandleAnswer,
    HandleMsg, QueryMsg, Registry, RegistryError, ResponseStatus, SearchResponse, StoreError,
};

fn s(text: &str) -> String {
    text.to_string()
}

fn search(r: &Registry, kind: &str, value: &str) -> Result<SearchResponse, RegistryError> {
    r.search(&s(kind), &s(value))
}

fn alias_slot(key: &[u8]) -> Vec<u8> {
    let mut k = vec![0u8, 7];
    k.extend_from_slice(b"aliases");
    k.extend_from_slice(key);
    k
}

fn owner_slot(key: &[u8]) -> Vec<u8> {
    let mut k = vec![0u8, 17];
    k.extend_from_slice(b"addresses_aliases");
    k.extend_from_slice(key);
    k
}

#[test]
fn create_returns_record() {
    let mut r = Registry::new();
    let rec = r.create(&s("addr_a"), &s("bob"), Some(s("http://x"))).unwrap();
    assert_eq!(rec.human_address, "addr_a");
    assert_eq!(rec.avatar_url, Some(s("http://x")));
}

#[test]
fn search_by_alias_and_by_address_agree() {
    let mut r = Registry::new();
    r.create(&s("addr_a"), &s("bob"), Some(s("http://x"))).unwrap();
    let by_alias = search(&r, "alias", "bob").unwrap();
    let by_address = search(&r, "address", "addr_a").unwrap();
    assert_eq!(by_alias.kind, "alias");
    assert_eq!(by_address.kind, "address");
    assert_eq!(by_alias.attributes, by_address.attributes);
    assert_eq!(by_alias.attributes.alias, "bob");
    assert_eq!(by_alias.attributes.address, "addr_a");
    assert_eq!(by_alias.attributes.avatar_url, Some(s("http://x")));
}

#[test]
fn create_destroy_round_trip() {
    let mut r = Registry::new();
    r.create(&s("addr_a"), &s("bob"), None).unwrap();
    assert_eq!(r.destroy(&s("addr_a"), &s("bob")), Ok(ResponseStatus::Success));
    assert_eq!(search(&r, "alias", "bob"), Err(RegistryError::AliasNotFound));
    assert_eq!(search(&r, "address", "addr_a"), Err(RegistryError::AliasNotFound));
    // both entries are gone: the alias and the address are free again
    r.create(&s("addr_b"), &s("bob"), None).unwrap();
    r.create(&s("addr_a"), &s("alice"), None).unwrap();
    assert_eq!(search(&r, "address", "addr_b").unwrap().attributes.alias, "bob");
}

#[test]
fn taken_alias_is_rejected() {
    let mut r = Registry::new();
    r.create(&s("addr_a"), &s("bob"), None).unwrap();
    assert_eq!(
        r.create(&s("addr_b"), &s("bob"), None).unwrap_err(),
        RegistryError::AliasTaken
    );
    assert_eq!(search(&r, "alias", "bob").unwrap().attributes.address, "addr_a");
    assert_eq!(search(&r, "address", "addr_b"), Err(RegistryError::AliasNotFound));
}

#[test]
fn second_alias_for_address_is_rejected() {
    let mut r = Registry::new();
    r.create(&s("addr_a"), &s("bob"), None).unwrap();
    assert_eq!(
        r.create(&s("addr_a"), &s("alice"), None).unwrap_err(),
        RegistryError::AddressAlreadyHasAlias
    );
    assert_eq!(search(&r, "alias", "alice"), Err(RegistryError::AliasNotFound));
    assert_eq!(search(&r, "address", "addr_a").unwrap().attributes.alias, "bob");
}

#[test]
fn destroy_by_non_owner_is_rejected() {
    let mut r = Registry::new();
    r.create(&s("addr_a"), &s("bob"), None).unwrap();
    assert_eq!(r.destroy(&s("addr_b"), &s("bob")), Err(RegistryError::NotOwner));
    assert_eq!(search(&r, "alias", "bob").unwrap().attributes.address, "addr_a");
    assert_eq!(search(&r, "address", "addr_a").unwrap().attributes.alias, "bob");
}

#[test]
fn destroy_missing_alias_is_rejected() {
    let mut r = Registry::new();
    assert_eq!(r.destroy(&s("addr_a"), &s("bob")), Err(RegistryError::AliasNotFound));
}

#[test]
fn unknown_search_type_is_rejected() {
    let mut r = Registry::new();
    assert_eq!(search(&r, "phone", "555-0100"), Err(RegistryError::UnsupportedSearchType));
    r.create(&s("555-0100"), &s("bob"), None).unwrap();
    assert_eq!(search(&r, "phone", "555-0100"), Err(RegistryError::UnsupportedSearchType));
    assert_eq!(search(&r, "Alias", "bob"), Err(RegistryError::UnsupportedSearchType));
}

#[test]
fn indexes_stay_consistent_over_a_sequence() {
    let mut r = Registry::new();
    let steps: Vec<(bool, &str, &str)> = vec![
        (true, "a1", "x"),
        (true, "a2", "y"),
        (true, "a2", "z"),
        (true, "a3", "x"),
        (false, "a1", "x"),
        (true, "a3", "x"),
        (false, "a2", "x"),
        (true, "a1", "w"),
        (false, "a2", "y"),
        (true, "a2", "w"),
    ];
    let addresses = ["a1", "a2", "a3"];
    let aliases = ["w", "x", "y", "z"];
    for (create, who, name) in steps {
        if create {
            let _ = r.create(&s(who), &s(name), None);
        } else {
            let _ = r.destroy(&s(who), &s(name));
        }
        for d in addresses {
            if let Ok(found) = search(&r, "address", d) {
                let back = search(&r, "alias", &found.attributes.alias).unwrap();
                assert_eq!(back.attributes.address, d);
            }
        }
        for a in aliases {
            if let Ok(found) = search(&r, "alias", a) {
                let back = search(&r, "address", &found.attributes.address).unwrap();
                assert_eq!(back.attributes.alias, a);
            }
        }
    }
    assert_eq!(search(&r, "address", "a1").unwrap().attributes.alias, "w");
    assert_eq!(search(&r, "address", "a3").unwrap().attributes.alias, "x");
    assert_eq!(search(&r, "address", "a2"), Err(RegistryError::AliasNotFound));
}

#[test]
fn empty_alias_and_unicode_alias() {
    let mut r = Registry::new();
    r.create(&s("addr_a"), &s(""), None).unwrap();
    r.create(&s("addr_b"), &s("bj\u{f6}rk"), Some(s(""))).unwrap();
    assert_eq!(search(&r, "alias", "").unwrap().attributes.address, "addr_a");
    let found = search(&r, "address", "addr_b").unwrap();
    assert_eq!(found.attributes.alias, "bj\u{f6}rk");
    assert_eq!(found.attributes.avatar_url, Some(s("")));
}

#[test]
fn handle_and_query_dispatch() {
    let mut r = Registry::new();
    let created = r
        .handle(&s("addr_a"), HandleMsg::Create { alias: s("bob"), avatar_url: Some(s("u")) })
        .unwrap();
    match created {
        HandleAnswer::Create { alias } => {
            assert_eq!(alias.alias, "bob");
            assert_eq!(alias.address, "addr_a");
            assert_eq!(alias.avatar_url, Some(s("u")));
        }
        _ => panic!("expected a create answer"),
    }
    let q = QueryMsg::Search { search_type: s("address"), search_value: s("addr_a") };
    assert_eq!(r.query(&q).unwrap().attributes.alias, "bob");
    let destroyed = r.handle(&s("addr_a"), HandleMsg::Destroy { alias: s("bob") }).unwrap();
    assert_eq!(destroyed, HandleAnswer::Destroy { status: ResponseStatus::Success });
    assert_eq!(r.query(&q), Err(RegistryError::AliasNotFound));
    assert_eq!(
        r.handle(&s("addr_a"), HandleMsg::Destroy { alias: s("bob") }),
        Err(RegistryError::AliasNotFound)
    );
}

#[test]
fn alias_index_uses_length_prefixed_namespace() {
    let mut storage = MemoryStorage::new();
    let rec = Alias { human_address: s("addr_a"), avatar_url: None };
    assert!(save(&mut storage, &alias_slot(b"bob"), &rec).is_ok());
    let found = AliasesReadonlyStorage::from_storage(&storage).get_alias(b"bob").unwrap().unwrap();
    assert_eq!(found.human_address, "addr_a");
    assert_eq!(found.avatar_url, None);
    assert_eq!(AliasesReadonlyStorage::from_storage(&storage).get_alias(b"bo").unwrap().is_none(), true);
}

#[test]
fn alias_index_set_get_remove() {
    let mut idx = AliasesStorage::from_storage(MemoryStorage::new());
    assert!(idx.get_alias(b"bob").unwrap().is_none());
    let rec = Alias { human_address: s("addr_a"), avatar_url: Some(s("http://x")) };
    assert!(idx.set_alias(b"bob", rec).is_ok());
    let found = idx.get_alias(b"bob").unwrap().unwrap();
    assert_eq!(found.human_address, "addr_a");
    assert_eq!(found.avatar_url, Some(s("http://x")));
    let storage = idx.into_storage();
    assert!(load(&storage, &alias_slot(b"bob")).is_ok());
    let mut idx = AliasesStorage::from_storage(storage);
    idx.remove_alias(b"bob");
    assert!(idx.get_alias(b"bob").unwrap().is_none());
    idx.remove_alias(b"bob");
    assert!(idx.get_alias(b"bob").unwrap().is_none());
}

#[test]
fn owner_index_set_get_remove() {
    let mut idx = AddressesAliasesStorage::from_storage(MemoryStorage::new());
    assert_eq!(idx.get_alias(&s("addr_a")), Ok(None));
    assert!(idx.set_alias(b"addr_a", &s("bob")).is_ok());
    assert_eq!(idx.get_alias(&s("addr_a")), Ok(Some(s("bob"))));
    let storage = idx.into_storage();
    assert_eq!(
        AddressesAliasesReadonlyStorage::from_storage(&storage).get_alias(&s("addr_a")),
        Ok(Some(s("bob")))
    );
    // the owner index does not show through the alias index
    assert!(AliasesReadonlyStorage::from_storage(&storage).get_alias(b"addr_a").unwrap().is_none());
    let mut idx = AddressesAliasesStorage::from_storage(storage);
    idx.remove_alias(b"addr_a");
    assert_eq!(idx.get_alias(&s("addr_a")), Ok(None));
}

#[test]
fn load_reports_missing_record_type() {
    let storage = MemoryStorage::new();
    match load(&storage, b"nothing") {
        Err(StoreError::NotFound { kind }) => assert_eq!(kind, "Alias"),
        _ => panic!("expected NotFound"),
    }
    assert!(may_load(&storage, b"nothing").unwrap().is_none());
}

#[test]
fn load_save_remove_round_trip() {
    let mut storage = MemoryStorage::new();
    let rec = Alias { human_address: s("addr_a"), avatar_url: Some(s("av")) };
    assert!(save(&mut storage, b"k", &rec).is_ok());
    let back = load(&storage, b"k").unwrap();
    assert_eq!(back.human_address, "addr_a");
    assert_eq!(back.avatar_url, Some(s("av")));
    remove(&mut storage, b"k");
    assert!(may_load(&storage, b"k").unwrap().is_none());
}

#[test]
fn text_entry_is_no_record() {
    let mut idx = AddressesAliasesStorage::from_storage(MemoryStorage::new());
    idx.set_alias(b"x", &s("bob")).unwrap();
    let storage = idx.into_storage();
    assert!(matches!(load(&storage, &owner_slot(b"x")), Err(StoreError::DecodeError)));
    assert_eq!(may_load(&storage, &owner_slot(b"x")).unwrap_err(), StoreError::DecodeError);
}
