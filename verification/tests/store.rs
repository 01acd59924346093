use auth_gate::store::{CredStore, UserRecord};

fn record(id: i32, username: &str) -> UserRecord {
    UserRecord {
        id,
        username: String::from(username),
        password_hash: String::from("$2b$12$000000000000000000000000000000000000000000000000000"),
        profile_picture: String::from("default.png"),
        hours: 0,
    }
}

#[test]
fn add_and_find_by_username() {
    let mut store = CredStore::new();
    assert!(store.add_user(record(1, "alice")));
    assert!(store.add_user(record(2, "bob")));
    let found = store.find_by_username(&String::from("bob")).expect("bob is present");
    assert_eq!(found.id, 2);
    assert_eq!(found.username, "bob");
}

#[test]
fn find_by_id_returns_the_record() {
    let mut store = CredStore::new();
    assert!(store.add_user(record(1, "alice")));
    assert!(store.add_user(record(2, "bob")));
    let found = store.find_by_id(1).expect("id 1 is present");
    assert_eq!(found.username, "alice");
}

#[test]
fn absent_keys_find_nothing() {
    let mut store = CredStore::new();
    assert!(store.add_user(record(1, "alice")));
    assert!(store.find_by_username(&String::from("carol")).is_none());
    assert!(store.find_by_id(9).is_none());
    assert!(CredStore::new().find_by_id(1).is_none());
}

#[test]
fn duplicate_username_is_rejected() {
    let mut store = CredStore::new();
    assert!(store.add_user(record(1, "alice")));
    assert!(!store.add_user(record(2, "alice")));
    assert!(store.find_by_id(2).is_none());
}

#[test]
fn duplicate_id_is_rejected() {
    let mut store = CredStore::new();
    assert!(store.add_user(record(1, "alice")));
    assert!(!store.add_user(record(1, "bob")));
    assert!(store.find_by_username(&String::from("bob")).is_none());
}
