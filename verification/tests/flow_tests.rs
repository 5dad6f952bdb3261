use local_hotel::envelope::Status;
use local_hotel::flows::{authenticate_request, login_guest, logout_response, register_guest, resolve_guest};
use local_hotel::guest::Guest;
use local_hotel::password::verify;
use local_hotel::schema::RegisterGuestSchema;
use local_hotel::token::issue;

const SECRET: &[u8] = b"my_ultra_secure_secret";

fn register_body(email: &str) -> RegisterGuestSchema {
    RegisterGuestSchema {
        first_name: "Ada".to_string(),
        last_name: "Lovelace".to_string(),
        email_address: email.to_string(),
        password: "pw123".to_string(),
        phone_number: "0123456789".to_string(),
    }
}

fn stored_guest(id: i32, email: &str, password: &str) -> Guest {
    let body = RegisterGuestSchema {
        email_address: email.to_string(),
        password: password.to_string(),
        ..register_body(email)
    };
    let new_guest = register_guest(&body, false).expect("registration failed");
    Guest {
        id,
        first_name: new_guest.first_name,
        last_name: new_guest.last_name,
        email_address: new_guest.email_address,
        password: new_guest.password,
        verified: false,
        phone_number: new_guest.phone_number,
        created_at: Some(1_700_000_000),
        updated_at: Some(1_700_000_000),
    }
}

#[test]
fn registration_normalizes_and_hashes() {
    let g = register_guest(&register_body("Ada@Example.COM"), false).expect("registration failed");
    assert_eq!(g.email_address, "ada@example.com");
    assert_ne!(g.password, "pw123");
    assert!(verify("pw123", &g.password));
}

#[test]
fn duplicate_email_is_a_conflict() {
    let err = register_guest(&register_body("a@x.com"), true).unwrap_err();
    assert_eq!(err.status, Status::ClientError);
    assert_eq!(err.code, 409);
    assert_eq!(err.message, "Guest with that email already exists");
    assert_eq!(err.status_tag(), "fail");
}

#[test]
fn case_variant_email_is_the_same_duplicate() {
    // The store is keyed by the normalized email, so a registration that
    // differs only in letter case hits the same key and the same conflict.
    let first = register_guest(&register_body("a@x.com"), false).expect("registration failed");
    let body = register_body("A@X.COM");
    let looked_up = local_hotel::email::normalize_email(&body.email_address);
    assert_eq!(looked_up, first.email_address);
    let err = register_guest(&body, true).unwrap_err();
    assert_eq!(err.code, 409);
}

#[test]
fn unknown_email_and_wrong_password_are_indistinguishable() {
    let now = 1_700_000_000;
    let guest = stored_guest(5, "a@x.com", "right password");
    let unknown = login_guest(None, "right password", now, SECRET).unwrap_err();
    let wrong = login_guest(Some(&guest), "wrong password", now, SECRET).unwrap_err();
    assert_eq!(unknown.status, wrong.status);
    assert_eq!(unknown.code, wrong.code);
    assert_eq!(unknown.message, wrong.message);
    assert_eq!(unknown.message, "Invalid email or password");
    assert_eq!(unknown.code, 400);
}

#[test]
fn login_issues_a_cookie_wrapped_token() {
    let now = 1_700_000_000;
    let guest = stored_guest(5, "a@x.com", "pw123");
    let success = login_guest(Some(&guest), "pw123", now, SECRET).expect("login failed");
    assert_eq!(
        success.cookie,
        format!("token={}; HttpOnly; SameSite=Lax; Path=/; Max-Age=3600", success.token)
    );
    let cookie_header = format!("token={}", success.token);
    assert_eq!(authenticate_request(None, Some(&cookie_header), now, SECRET).ok(), Some(5));
}

#[test]
fn gate_rejections_share_one_shape() {
    let now = 1_700_000_000;
    // No token carried at all.
    let none = authenticate_request(None, None, now, SECRET).unwrap_err();
    // An expired token.
    let old_token = issue(5, now - 7200, SECRET);
    let header = format!("Bearer {}", old_token);
    let expired = authenticate_request(Some(&header), None, now, SECRET).unwrap_err();
    // A valid token whose guest is gone.
    let deleted = resolve_guest(None).unwrap_err();
    for e in [&none, &expired, &deleted] {
        assert_eq!(e.status, Status::ClientError);
        assert_eq!(e.code, 401);
        assert_eq!(e.status_tag(), "fail");
    }
}

#[test]
fn logout_clears_the_cookie() {
    let r = logout_response();
    assert_eq!(r.status, "success");
    assert_eq!(r.cookie, "token=; HttpOnly; SameSite=Lax; Path=/; Max-Age=-3600");
}
