use auth_gate::password::{hash_password, verify_password, VerifyError};

#[test]
fn hash_then_verify_matches() {
    let password = String::from("secret123");
    let digest = hash_password(&password).expect("hashing succeeds");
    assert_eq!(verify_password(&password, &digest), Ok(true));
}

#[test]
fn wrong_password_does_not_match() {
    let digest = hash_password(&String::from("secret123")).expect("hashing succeeds");
    assert_eq!(verify_password(&String::from("secret124"), &digest), Ok(false));
    assert_eq!(verify_password(&String::from(""), &digest), Ok(false));
}

#[test]
fn malformed_hash_is_reported() {
    let r = verify_password(&String::from("anything"), &String::from("not a digest"));
    assert_eq!(r, Err(VerifyError::MalformedHash));
}

#[test]
fn hash_output_is_a_bcrypt_digest() {
    let digest = hash_password(&String::from("pw")).expect("hashing succeeds");
    assert_eq!(digest.len(), 60);
    assert!(digest.starts_with("$2"));
}
