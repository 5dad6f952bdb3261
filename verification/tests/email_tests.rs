use local_hotel::email::normalize_email;

#[test]
fn lowercases_ascii_letters() {
    assert_eq!(normalize_email("A@X.CoM"), "a@x.com");
    assert_eq!(normalize_email("Guest.One+tag@Example.ORG"), "guest.one+tag@example.org");
}

#[test]
fn leaves_everything_else_alone() {
    assert_eq!(normalize_email("a@x.com"), "a@x.com");
    assert_eq!(normalize_email("0-1_2@3.4"), "0-1_2@3.4");
    assert_eq!(normalize_email(""), "");
    assert_eq!(normalize_email("Ünicode@Ü.de"), "Ünicode@Ü.de");
}

#[test]
fn case_variants_share_one_key() {
    assert_eq!(normalize_email("a@x.com"), normalize_email("A@X.COM"));
    assert_eq!(normalize_email("a@x.com"), normalize_email("a@X.Com"));
}
