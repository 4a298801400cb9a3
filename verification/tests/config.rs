use pagetally_server::config::{Config, ConfigError, EnvVars};
use pagetally_server::policy::{stats_cors, StatsCors};
use pagetally_server::text::{split_list, trimmed};

fn vars() -> EnvVars {
    EnvVars {
        database_url: Some("postgres://localhost/pt".into()),
        bind_addr: None,
        allowed_sites: None,
        admin_token: None,
        resend_api_key: None,
        email_from: None,
        email_from_name: None,
        contact_to: None,
        stats_origins: None,
        behind_tls: None,
    }
}

#[test]
fn database_url_is_required() {
    let mut v = vars();
    v.database_url = None;
    match Config::from_vars(&v) {
        Err(ConfigError::Missing(name)) => assert_eq!(name, "DATABASE_URL"),
        Ok(_) => panic!("expected an error"),
    }
}

#[test]
fn defaults_apply_when_unset() {
    let c = Config::from_vars(&vars()).unwrap();
    assert_eq!(c.database_url, "postgres://localhost/pt");
    assert_eq!(c.bind_addr, "0.0.0.0:3001");
    assert!(c.allowed_sites.is_none());
    assert!(c.admin_token.is_none());
    assert!(c.email.is_none());
    assert!(c.contact_to.is_none());
    assert!(c.stats_origins.is_none());
    assert!(!c.behind_tls);
}

#[test]
fn allowed_sites_are_split_trimmed_and_filtered() {
    let mut v = vars();
    v.allowed_sites = Some(" site-a , ,site-b,, ".into());
    let c = Config::from_vars(&v).unwrap();
    assert_eq!(c.allowed_sites, Some(vec!["site-a".to_string(), "site-b".to_string()]));
}

#[test]
fn empty_allowlist_is_kept_and_admits_nothing() {
    let mut v = vars();
    v.allowed_sites = Some("".into());
    let c = Config::from_vars(&v).unwrap();
    assert_eq!(c.allowed_sites, Some(Vec::<String>::new()));
}

#[test]
fn email_needs_key_and_sender() {
    let mut v = vars();
    v.resend_api_key = Some("key".into());
    assert!(Config::from_vars(&v).unwrap().email.is_none());
    v.email_from = Some("".into());
    assert!(Config::from_vars(&v).unwrap().email.is_none());
    v.email_from = Some("me@example.com".into());
    let e = Config::from_vars(&v).unwrap().email.unwrap();
    assert_eq!(e.resend_api_key, "key");
    assert_eq!(e.from, "me@example.com");
    assert_eq!(e.from_name, "pagetally");
    assert_eq!(e.timeout_secs, 10);
    v.email_from_name = Some("Site".into());
    assert_eq!(Config::from_vars(&v).unwrap().email.unwrap().from_name, "Site");
}

#[test]
fn optional_settings_are_read() {
    let mut v = vars();
    v.bind_addr = Some("127.0.0.1:9000".into());
    v.admin_token = Some("tok".into());
    v.contact_to = Some("".into());
    v.stats_origins = Some("https://a.example, https://b.example".into());
    v.behind_tls = Some("1".into());
    let c = Config::from_vars(&v).unwrap();
    assert_eq!(c.bind_addr, "127.0.0.1:9000");
    assert_eq!(c.admin_token.as_deref(), Some("tok"));
    assert!(c.contact_to.is_none());
    assert_eq!(
        c.stats_origins,
        Some(vec!["https://a.example".to_string(), "https://b.example".to_string()])
    );
    assert!(c.behind_tls);
    v.behind_tls = Some("yes".into());
    assert!(!Config::from_vars(&v).unwrap().behind_tls);
    v.behind_tls = Some("true".into());
    assert!(Config::from_vars(&v).unwrap().behind_tls);
}

#[test]
fn split_and_trim_follow_std() {
    for s in ["", ",", "a", " a ,b", "a,,b,", "\u{3000}x\u{a0},\ty\n", "é , ü"] {
        let expected: Vec<String> = s
            .split(',')
            .map(|x| x.trim().to_string())
            .filter(|x| !x.is_empty())
            .collect();
        assert_eq!(split_list(s), expected, "input {s:?}");
        assert_eq!(trimmed(s), s.trim(), "input {s:?}");
    }
}

#[test]
fn stats_cors_uses_configured_origins() {
    assert!(matches!(stats_cors(&None), StatsCors::AnyOrigin));
    assert!(matches!(stats_cors(&Some(vec![])), StatsCors::AnyOrigin));
    match stats_cors(&Some(vec!["https://a.example".into()])) {
        StatsCors::Origins(o) => assert_eq!(o, vec!["https://a.example".to_string()]),
        StatsCors::AnyOrigin => panic!("expected a list"),
    }
}
