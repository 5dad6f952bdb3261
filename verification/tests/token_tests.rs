use local_hotel::token::{issue, issue_then_validate, validate};

const SECRET: &[u8] = b"my_ultra_secure_secret";

#[test]
fn issue_then_validate_returns_subject() {
    let token = issue(42, 1_700_000_000, SECRET);
    assert_eq!(validate(&token, 1_700_000_000, SECRET), Some(42));
}

#[test]
fn expiry_boundary() {
    let now = 1_700_000_000;
    let token = issue(7, now, SECRET);
    assert_eq!(validate(&token, now + 3599, SECRET), Some(7));
    assert_eq!(validate(&token, now + 3600, SECRET), None);
    assert_eq!(validate(&token, now + 3601, SECRET), None);
}

#[test]
fn negative_subject_survives_the_trip() {
    let token = issue(-12, 1_700_000_000, SECRET);
    assert_eq!(validate(&token, 1_700_000_000, SECRET), Some(-12));
}

#[test]
fn wrong_secret_fails() {
    let token = issue(42, 1_700_000_000, b"secret one");
    assert_eq!(validate(&token, 1_700_000_000, b"secret two"), None);
}

#[test]
fn malformed_tokens_fail() {
    assert_eq!(validate("", 0, SECRET), None);
    assert_eq!(validate("not.a.token", 0, SECRET), None);
    let token = issue(1, 1_700_000_000, SECRET);
    let tampered = format!("{}A", token);
    assert_eq!(validate(&tampered, 1_700_000_000, SECRET), None);
}

#[test]
fn round_trip_law_on_values() {
    assert_eq!(issue_then_validate(9, 1000, 1000, SECRET), Some(9));
    assert_eq!(issue_then_validate(9, 1000, 4600, SECRET), None);
}
