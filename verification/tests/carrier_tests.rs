use local_hotel::carrier::{cookie_value, extract_token, login_cookie, logout_cookie};

#[test]
fn bearer_header_is_extracted() {
    assert_eq!(extract_token(Some("Bearer abc.def.ghi"), None), Some("abc.def.ghi".to_string()));
}

#[test]
fn header_wins_over_cookie() {
    assert_eq!(
        extract_token(Some("Bearer from_header"), Some("token=from_cookie")),
        Some("from_header".to_string())
    );
}

#[test]
fn non_bearer_header_falls_back_to_cookie() {
    assert_eq!(
        extract_token(Some("Basic dXNlcjpwdw=="), Some("token=from_cookie")),
        Some("from_cookie".to_string())
    );
}

#[test]
fn cookie_alone_is_extracted() {
    assert_eq!(extract_token(None, Some("token=t1")), Some("t1".to_string()));
}

#[test]
fn nothing_carried_is_none() {
    assert_eq!(extract_token(None, None), None);
    assert_eq!(extract_token(Some("Bear er x"), Some("session=1")), None);
}

#[test]
fn cookie_header_parsing() {
    assert_eq!(cookie_value("a=1; token=xyz; b=2", "token"), Some("xyz".to_string()));
    assert_eq!(cookie_value("token=first; token=second", "token"), Some("first".to_string()));
    assert_eq!(cookie_value("xtoken=1; b=2", "token"), None);
    assert_eq!(cookie_value("xtoken=1;token=2", "token"), Some("2".to_string()));
    assert_eq!(cookie_value("token=", "token"), Some("".to_string()));
    assert_eq!(cookie_value("", "token"), None);
    assert_eq!(cookie_value("token", "token"), None);
}

#[test]
fn login_cookie_shape() {
    assert_eq!(
        login_cookie("tok123"),
        "token=tok123; HttpOnly; SameSite=Lax; Path=/; Max-Age=3600"
    );
}

#[test]
fn logout_cookie_clears() {
    assert_eq!(logout_cookie(), "token=; HttpOnly; SameSite=Lax; Path=/; Max-Age=-3600");
}

#[test]
fn logout_cookie_value_no_longer_extracts_a_usable_token() {
    let cleared = "token=; HttpOnly; SameSite=Lax; Path=/; Max-Age=-3600";
    assert_eq!(extract_token(None, Some(cleared)), Some("".to_string()));
}
