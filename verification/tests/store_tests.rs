use update_check::store::LocalVersionStore;

#[test]
fn ensure_default_on_fresh_store_writes_once() {
    let mut store = LocalVersionStore::new(None);
    let (value, effect) = store.ensure_default("5.2");
    assert_eq!(value, "5.2");
    assert!(effect.create_dir);
    assert!(effect.write_file);
    assert_eq!(store.read(), Some(String::from("5.2")));
}

#[test]
fn ensure_default_is_idempotent() {
    let mut store = LocalVersionStore::new(None);
    let (first, first_effect) = store.ensure_default("5.2");
    let (second, second_effect) = store.ensure_default("5.2");
    assert_eq!(first, second);
    // Across the two calls: at most one directory creation and one file write.
    assert!(first_effect.create_dir && first_effect.write_file);
    assert!(!second_effect.create_dir);
    assert!(!second_effect.write_file);
}

#[test]
fn ensure_default_keeps_existing_marker() {
    let mut store = LocalVersionStore::new(Some(String::from("7.1")));
    let (value, effect) = store.ensure_default("5.2");
    assert_eq!(value, "7.1");
    assert!(!effect.create_dir);
    assert!(!effect.write_file);
    assert_eq!(store.read(), Some(String::from("7.1")));
}

#[test]
fn read_of_missing_marker_is_none() {
    let store = LocalVersionStore::new(None);
    assert_eq!(store.read(), None);
}

#[test]
fn write_overwrites_marker() {
    let mut store = LocalVersionStore::new(Some(String::from("5.2")));
    store.write("6.0");
    assert_eq!(store.read(), Some(String::from("6.0")));
}
