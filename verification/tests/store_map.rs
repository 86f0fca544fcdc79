use jsrt::store::UserStore;

#[test]
fn store_holds_one_value_per_key() {
    let mut store: UserStore<String> = UserStore::new();
    assert_eq!(store.len(), 0);

    assert_eq!(store.insert(1, String::from("first")), None);
    assert_eq!(store.insert(2, String::from("second")), None);
    assert_eq!(store.len(), 2);

    // Inserting under a held key replaces and returns the old value.
    assert_eq!(
        store.insert(1, String::from("replaced")),
        Some(String::from("first"))
    );
    assert_eq!(store.len(), 2);
    assert_eq!(store.get(1).map(String::as_str), Some("replaced"));
    assert_eq!(store.get(2).map(String::as_str), Some("second"));
    assert_eq!(store.get(3), None);
}

#[test]
fn store_remove_takes_the_value_out() {
    let mut store: UserStore<u32> = UserStore::new();
    store.insert(10, 100);
    store.insert(20, 200);
    store.insert(30, 300);

    assert_eq!(store.remove(20), Some(200));
    assert_eq!(store.remove(20), None);
    assert_eq!(store.len(), 2);
    assert_eq!(store.get(10), Some(&100));
    assert_eq!(store.get(20), None);
    assert_eq!(store.get(30), Some(&300));

    assert_eq!(store.remove(10), Some(100));
    assert_eq!(store.remove(30), Some(300));
    assert_eq!(store.len(), 0);
}
