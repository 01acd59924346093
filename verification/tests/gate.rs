use auth_gate::gate::{index, login, logout, profile, transit_times, AuthError};
use auth_gate::password::hash_password;
use auth_gate::session::SessionKey;
use auth_gate::store::{CredStore, UserRecord};

fn store_with_alice() -> CredStore {
    let mut store = CredStore::new();
    let digest = hash_password(&String::from("secret123")).expect("hashing succeeds");
    let adopted = store.add_user(UserRecord {
        id: 1,
        username: String::from("alice"),
        password_hash: digest,
        profile_picture: String::from("alice.png"),
        hours: 40,
    });
    assert!(adopted);
    store
}

#[test]
fn login_profile_logout_scenario() {
    let store = store_with_alice();
    let key = SessionKey::generate();

    let grant = login(&store, &key, &String::from("alice"), &String::from("secret123"))
        .expect("correct credentials log in");
    assert_eq!(grant.flash, "Login successful!");
    assert_eq!(grant.redirect_to, "/profile");

    let record = profile(&store, &key, Some(&grant.cookie)).expect("session serves the profile");
    assert_eq!(record.id, 1);
    assert_eq!(record.username, "alice");
    assert_eq!(record.profile_picture, "alice.png");
    assert_eq!(record.hours, 40);

    let out = logout();
    assert!(out.clear_cookie);
    assert_eq!(out.flash, "Logout successful!");
    assert_eq!(out.redirect_to, "/");

    assert!(profile(&store, &key, None).is_none());
}

#[test]
fn wrong_password_is_unauthorized_without_session() {
    let store = store_with_alice();
    let key = SessionKey::generate();
    let r = login(&store, &key, &String::from("alice"), &String::from("secret124"));
    match r {
        Err(AuthError::Unauthorized) => {}
        _ => panic!("a wrong password must be Unauthorized and grant nothing"),
    }
}

#[test]
fn unknown_user_fails_like_wrong_password() {
    let store = store_with_alice();
    let key = SessionKey::generate();
    let unknown = login(&store, &key, &String::from("bob"), &String::from("whatever"))
        .expect_err("unknown username fails");
    let mismatch = login(&store, &key, &String::from("alice"), &String::from("nope"))
        .expect_err("wrong password fails");
    assert_eq!(unknown, mismatch);
    assert_eq!(unknown, AuthError::Unauthorized);
}

#[test]
fn malformed_stored_digest_is_a_server_error() {
    let mut store = CredStore::new();
    assert!(store.add_user(UserRecord {
        id: 3,
        username: String::from("mallory"),
        password_hash: String::from("garbage"),
        profile_picture: String::from("m.png"),
        hours: 0,
    }));
    let key = SessionKey::generate();
    let r = login(&store, &key, &String::from("mallory"), &String::from("pw"));
    match r {
        Err(AuthError::ServerError) => {}
        _ => panic!("a corrupt stored digest must be a server error"),
    }
}

#[test]
fn logout_twice_gives_the_same_outcome() {
    let first = logout();
    let second = logout();
    assert_eq!(first.clear_cookie, second.clear_cookie);
    assert_eq!(first.redirect_to, second.redirect_to);
    assert_eq!(first.flash, second.flash);
}

#[test]
fn tampered_cookie_leaves_profile_absent() {
    let store = store_with_alice();
    let key = SessionKey::generate();
    let grant = login(&store, &key, &String::from("alice"), &String::from("secret123"))
        .expect("correct credentials log in");
    let mut chars: Vec<char> = grant.cookie.chars().collect();
    chars[0] = if chars[0] == 'A' { 'B' } else { 'A' };
    let tampered: String = chars.into_iter().collect();
    assert!(profile(&store, &key, Some(&tampered)).is_none());
}

#[test]
fn departed_user_leaves_profile_absent() {
    let store = store_with_alice();
    let key = SessionKey::generate();
    let grant = login(&store, &key, &String::from("alice"), &String::from("secret123"))
        .expect("correct credentials log in");
    let empty = CredStore::new();
    assert!(profile(&empty, &key, Some(&grant.cookie)).is_none());
}

#[test]
fn index_wraps_the_flash_message() {
    let page = index(Some(&String::from("Login successful!")));
    assert!(page.contains("<p>Login successful!</p>"));
    assert!(page.contains("<title>Rust Web App</title>"));
    let plain = index(None);
    assert!(plain.contains("<p></p>"));
    let head = "\n        <html>\n        <head>\n            <title>Rust Web App</title>";
    assert!(page.starts_with(head));
    assert!(plain.starts_with(head));
}

#[test]
fn transit_times_is_a_placeholder() {
    let _ = transit_times();
}
