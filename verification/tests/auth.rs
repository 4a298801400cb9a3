use pagetally_server::auth::{
    admin_allows, bearer_token, constant_time_eq, digests_equal, trim_ascii_bytes,
};

fn token() -> Option<String> {
    Some("secret-token".to_string())
}

#[test]
fn stats_summary_requires_admin_token() {
    assert!(!admin_allows(&token(), None));
}

#[test]
fn stats_summary_rejects_wrong_token() {
    assert!(!admin_allows(&token(), Some(b"Bearer wrong")));
}

#[test]
fn stats_summary_accepts_correct_token() {
    assert!(admin_allows(&token(), Some(b"Bearer secret-token")));
}

#[test]
fn open_without_admin_token() {
    assert!(admin_allows(&None, None));
    assert!(admin_allows(&None, Some(b"Bearer anything")));
}

#[test]
fn presented_token_is_trimmed() {
    assert!(admin_allows(&token(), Some(b"Bearer   secret-token \t")));
    assert_eq!(bearer_token(Some(b"Bearer  abc ")), Some(b"abc".to_vec()));
}

#[test]
fn scheme_must_be_bearer() {
    assert!(!admin_allows(&token(), Some(b"Basic secret-token")));
    assert!(!admin_allows(&token(), Some(b"bearer secret-token")));
    assert!(!admin_allows(&token(), Some(b"secret-token")));
    assert_eq!(bearer_token(Some(b"Bearer")), None);
}

#[test]
fn non_text_header_is_refused() {
    assert_eq!(bearer_token(Some(b"Bearer abc\xff")), None);
    assert_eq!(bearer_token(Some(b"Bearer a\nb")), None);
    assert!(!admin_allows(&token(), Some(b"Bearer secret-token\x01")));
}

#[test]
fn constant_time_eq_compares_contents() {
    assert!(constant_time_eq(b"abc", b"abc"));
    assert!(!constant_time_eq(b"abc", b"abd"));
    assert!(!constant_time_eq(b"abc", b"abcd"));
    assert!(constant_time_eq(b"", b""));
}

#[test]
fn trims_ascii_whitespace() {
    assert_eq!(trim_ascii_bytes(b" \t a b \r\n"), b"a b".to_vec());
    assert_eq!(trim_ascii_bytes(b"   "), Vec::<u8>::new());
    assert_eq!(trim_ascii_bytes(b""), Vec::<u8>::new());
}

#[test]
fn digests_equal_compares_every_byte() {
    let a = vec![7u8; 32];
    let mut b = a.clone();
    assert!(digests_equal(&a, &b));
    b[31] = 8;
    assert!(!digests_equal(&a, &b));
    b[31] = 7;
    b[0] = 0;
    assert!(!digests_equal(&a, &b));
}
