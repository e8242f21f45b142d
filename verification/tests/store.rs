use token_auth::error::Failure;
use token_auth::store::rotate_outcome;
use token_auth::store::set_outcome;
use token_auth::store::RevocationStore;

fn store_with(ids: &[i32]) -> RevocationStore {
    let mut store = RevocationStore::new();
    for id in ids {
        store.register(*id);
    }
    store
}

#[test]
fn new_store_knows_nobody() {
    let store = RevocationStore::new();
    assert!(!store.knows(1));
    assert_eq!(store.current(1), None);
    assert!(!store.exists_token(""));
}

#[test]
fn register_makes_an_identity_known_without_a_token() {
    let mut store = store_with(&[1, 2]);
    assert!(store.knows(1));
    assert!(store.knows(2));
    assert!(!store.knows(3));
    assert_eq!(store.current(1), None);

    assert_eq!(store.set_token(1, "a".to_string()), Ok(()));
    store.register(1);
    assert_eq!(store.current(1), Some(&"a".to_string()));
}

#[test]
fn set_token_is_an_upsert_for_a_known_identity() {
    let mut store = store_with(&[1, 2]);
    assert_eq!(store.set_token(1, "a".to_string()), Ok(()));
    assert_eq!(store.current(1), Some(&"a".to_string()));
    assert_eq!(store.current(2), None);
    assert_eq!(store.set_token(1, "b".to_string()), Ok(()));
    assert_eq!(store.current(1), Some(&"b".to_string()));
    assert!(store.exists_token("b"));
    assert!(!store.exists_token("a"));
}

#[test]
fn set_token_of_an_unknown_identity_is_not_found() {
    let mut store = store_with(&[1]);
    assert_eq!(store.set_token(9999, "a".to_string()), Err(Failure::NotFound));
    assert!(!store.knows(9999));
    assert!(!store.exists_token("a"));
    assert_eq!(store.current(1), None);
}

#[test]
fn rotate_token_swaps_only_the_current_token() {
    let mut store = store_with(&[1, 2]);
    store.set_token(1, "a".to_string()).unwrap();
    store.set_token(2, "x".to_string()).unwrap();

    assert_eq!(store.rotate_token(1, "a", "b".to_string()), Ok(()));
    assert_eq!(store.current(1), Some(&"b".to_string()));
    assert_eq!(store.current(2), Some(&"x".to_string()));

    assert_eq!(store.rotate_token(1, "x", "c".to_string()), Err(Failure::Conflict));
    assert_eq!(store.rotate_token(2, "b", "c".to_string()), Err(Failure::Conflict));
    assert_eq!(store.rotate_token(3, "b", "c".to_string()), Err(Failure::Conflict));
    assert_eq!(store.current(1), Some(&"b".to_string()));
    assert_eq!(store.current(2), Some(&"x".to_string()));
    assert!(!store.exists_token("c"));
}

#[test]
fn rotate_token_without_a_current_token_conflicts() {
    let mut store = store_with(&[1]);
    assert_eq!(store.rotate_token(1, "", "b".to_string()), Err(Failure::Conflict));
    assert_eq!(store.current(1), None);
}

#[test]
fn rotation_has_a_single_winner() {
    let mut store = store_with(&[1]);
    store.set_token(1, "old".to_string()).unwrap();
    let first = store.rotate_token(1, "old", "first".to_string());
    let second = store.rotate_token(1, "old", "second".to_string());
    assert_eq!(first, Ok(()));
    assert_eq!(second, Err(Failure::Conflict));
    assert_eq!(store.current(1), Some(&"first".to_string()));
}

#[test]
fn superseded_token_does_not_exist() {
    let mut store = store_with(&[1, 2]);
    store.set_token(1, "old".to_string()).unwrap();
    assert!(store.exists_token("old"));
    store.rotate_token(1, "old", "new".to_string()).unwrap();
    assert!(!store.exists_token("old"));
    assert!(store.exists_token("new"));

    store.set_token(2, "other".to_string()).unwrap();
    store.rotate_token(1, "new", "newer".to_string()).unwrap();
    store.register(3);
    assert_eq!(store.rotate_token(2, "old", "again".to_string()), Err(Failure::Conflict));
    assert!(!store.exists_token("old"));
    assert!(!store.exists_token("new"));
}

#[test]
fn exists_token_looks_at_every_identity() {
    let mut store = store_with(&[1, 2, 3]);
    store.set_token(3, "c".to_string()).unwrap();
    store.set_token(1, "a".to_string()).unwrap();
    assert!(store.exists_token("a"));
    assert!(store.exists_token("c"));
    assert!(!store.exists_token("b"));
    assert!(!store.exists_token("A"));
    assert!(!store.exists_token(""));
}

#[test]
fn update_that_changed_no_row_failed() {
    assert_eq!(set_outcome(0), Err(Failure::NotFound));
    assert_eq!(set_outcome(1), Ok(()));
    assert_eq!(set_outcome(2), Ok(()));
    assert_eq!(rotate_outcome(0), Err(Failure::Conflict));
    assert_eq!(rotate_outcome(1), Ok(()));
    assert_eq!(rotate_outcome(u64::MAX), Ok(()));
}
