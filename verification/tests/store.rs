use mock_relayer::store::Store;

#[test]
fn new_store_is_empty() {
    let store: Store<u32> = Store::new();
    assert_eq!(store.len(), 0);
    assert_eq!(store.get("a"), None);
    assert!(store.values().is_empty());
}

#[test]
fn inserted_value_is_found_under_its_key() {
    let mut store: Store<u32> = Store::new();
    store.insert("a".to_string(), 1);
    store.insert("b".to_string(), 2);
    assert_eq!(store.get("a"), Some(&1));
    assert_eq!(store.get("b"), Some(&2));
    assert_eq!(store.get("c"), None);
    assert_eq!(store.get("A"), None);
    assert_eq!(store.len(), 2);
}

#[test]
fn insert_under_a_known_key_replaces_the_value() {
    let mut store: Store<u32> = Store::new();
    store.insert("a".to_string(), 1);
    store.insert("b".to_string(), 2);
    store.insert("a".to_string(), 3);
    assert_eq!(store.get("a"), Some(&3));
    assert_eq!(store.len(), 2);
}

#[test]
fn values_come_in_the_order_of_first_insertion() {
    let mut store: Store<u32> = Store::new();
    store.insert("x".to_string(), 10);
    store.insert("a".to_string(), 20);
    store.insert("m".to_string(), 30);
    store.insert("x".to_string(), 40);
    assert_eq!(store.values(), vec![&40, &20, &30]);
}

#[test]
fn empty_text_is_a_key_like_any_other() {
    let mut store: Store<u32> = Store::new();
    store.insert(String::new(), 7);
    assert_eq!(store.get(""), Some(&7));
    assert_eq!(store.len(), 1);
}
