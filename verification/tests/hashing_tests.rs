use mirnet_server::hashing::{hash_password, verify_password};

#[test]
fn fresh_hash_verifies_its_password() {
    let hash = hash_password("hunter42").unwrap();
    assert!(verify_password("hunter42", &hash));
}

#[test]
fn wrong_password_does_not_verify() {
    let hash = hash_password("hunter42").unwrap();
    assert!(!verify_password("hunter43", &hash));
    assert!(!verify_password("", &hash));
}

#[test]
fn malformed_hash_verifies_as_false() {
    assert!(!verify_password("hunter42", "not a phc string"));
    assert!(!verify_password("hunter42", ""));
}

#[test]
fn hash_is_salted_and_self_describing() {
    let h1 = hash_password("same password").unwrap();
    let h2 = hash_password("same password").unwrap();
    // a fresh random salt per call: the strings differ, yet both verify
    assert_ne!(h1, h2);
    assert!(verify_password("same password", &h1));
    assert!(verify_password("same password", &h2));
    // the PHC string names the algorithm
    assert!(h1.starts_with("$argon2"));
}

#[test]
fn hash_is_an_argon2id_phc_string() {
    let h = hash_password("hunter42").unwrap();
    assert!(h.starts_with("$argon2id$"));
}
