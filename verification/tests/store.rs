use name_list::store::NameStore;

fn strings(names: &[&str]) -> Vec<String> {
    names.iter().map(|name| name.to_string()).collect()
}

#[test]
fn new_store_is_empty() {
    let store = NameStore::new();
    assert_eq!(store.len(), 0);
    assert!(store.is_empty());
    assert_eq!(store.snapshot(), Vec::<String>::new());
}

#[test]
fn append_returns_all_entries() {
    let mut store = NameStore::new();
    assert_eq!(store.append("Alice".to_string()), strings(&["Alice"]));
    assert_eq!(store.len(), 1);
    assert!(!store.is_empty());
    assert_eq!(store.snapshot(), strings(&["Alice"]));
}

#[test]
fn append_keeps_prior_entries_in_order() {
    let mut store = NameStore::new();
    let mut expected: Vec<String> = Vec::new();
    for name in ["Delta", "Alpha", "Charlie", "Bravo", "Alpha"] {
        let before = store.snapshot();
        let after = store.append(name.to_string());
        expected.push(name.to_string());
        assert_eq!(after, expected);
        assert_eq!(&after[..before.len()], &before[..]);
        assert_eq!(after.last().map(|last| last.as_str()), Some(name));
        assert_eq!(after.len(), before.len() + 1);
        assert_eq!(store.snapshot(), expected);
        assert_eq!(store.len(), expected.len());
    }
}

#[test]
fn append_twice_keeps_both() {
    let mut store = NameStore::new();
    let once = store.append("Carl".to_string());
    let twice = store.append("Carl".to_string());
    assert_eq!(once, strings(&["Carl"]));
    assert_eq!(twice, strings(&["Carl", "Carl"]));
    assert_ne!(once, twice);
    assert_eq!(store.len(), 2);
}

#[test]
fn snapshot_is_a_copy() {
    let mut store = NameStore::new();
    store.append("Alice".to_string());
    let mut copy = store.snapshot();
    copy.push("Mallory".to_string());
    copy[0].push_str("!!");
    assert_eq!(store.snapshot(), strings(&["Alice"]));
    let earlier = store.snapshot();
    store.append("Carl".to_string());
    assert_eq!(earlier, strings(&["Alice"]));
}

#[test]
fn append_keeps_names_of_many_bytes() {
    let mut store = NameStore::new();
    assert_eq!(store.append("日本語名".to_string()), strings(&["日本語名"]));
    assert_eq!(store.append("Zoë B".to_string()), strings(&["日本語名", "Zoë B"]));
}
