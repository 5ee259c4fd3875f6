use spa_assets::store::AssetStore;

#[test]
fn get_is_exact_match() {
    let mut store = AssetStore::new();
    store.insert(b"index.html".to_vec(), b"shell".to_vec());
    store.insert(b"a/b.txt".to_vec(), b"hello".to_vec());

    assert_eq!(store.get(&b"a/b.txt".to_vec()), Some(&b"hello".to_vec()));
    assert_eq!(store.get(&b"index.html".to_vec()), Some(&b"shell".to_vec()));
    assert_eq!(store.get(&b"a/b".to_vec()), None);
    assert_eq!(store.get(&b"b.txt".to_vec()), None);
    assert_eq!(store.get(&b"a/b.txt/".to_vec()), None);
}

#[test]
fn lookup_is_case_sensitive() {
    let mut store = AssetStore::new();
    store.insert(b"App.css".to_vec(), b"x".to_vec());
    assert_eq!(store.get(&b"App.css".to_vec()), Some(&b"x".to_vec()));
    assert_eq!(store.get(&b"app.css".to_vec()), None);
}

#[test]
fn contains_follows_get() {
    let mut store = AssetStore::new();
    assert!(!store.contains(&b"index.html".to_vec()));
    store.insert(b"index.html".to_vec(), b"shell".to_vec());
    assert!(store.contains(&b"index.html".to_vec()));
    assert!(!store.contains(&b"other.html".to_vec()));
}
