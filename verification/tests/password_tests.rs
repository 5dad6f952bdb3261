use local_hotel::password::{hash, hash_then_verify, verify};

#[test]
fn hash_verify_round_trip() {
    let h = hash("pw123").expect("hashing failed");
    assert!(verify("pw123", &h));
}

#[test]
fn wrong_password_fails() {
    let h = hash("pw123").expect("hashing failed");
    assert!(!verify("pw124", &h));
    assert!(!verify("", &h));
}

#[test]
fn hash_twice_differs_both_verify() {
    let h1 = hash("same password").expect("hashing failed");
    let h2 = hash("same password").expect("hashing failed");
    assert_ne!(h1, h2);
    assert!(verify("same password", &h1));
    assert!(verify("same password", &h2));
}

#[test]
fn malformed_hash_is_just_false() {
    assert!(!verify("pw123", ""));
    assert!(!verify("pw123", "not a phc string"));
    assert!(!verify("pw123", "$argon2id$v=19$m=19456,t=2,p=1$broken"));
}

#[test]
fn hash_then_verify_always_true() {
    assert_eq!(hash_then_verify("any password at all"), Some(true));
}
