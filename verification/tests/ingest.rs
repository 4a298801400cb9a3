use pagetally_server::ingest::{
    clamp_duration, collect_decision, country_code, event_row, PAGELEAVE_DUR_MAX_MS,
};
use pagetally_server::status::Status;
use pagetally_server::types::{PerformanceMetrics, RawPayload, Utm};

fn pageview(site: &str, path: &str) -> RawPayload {
    RawPayload::Pageview {
        s: site.into(),
        p: path.into(),
        ts: 1_700_000_000_000,
        r: None,
        d: Some("desktop".into()),
        v: Some(1280),
        u: None,
        vid: None,
    }
}

#[test]
fn collect_inserts_pageview() {
    let mut p = pageview("site-1", "/about");
    let row = collect_decision(&None, &mut p, None).unwrap();
    assert_eq!(row.site_id, "site-1");
    assert_eq!(row.kind, "pageview");
    assert_eq!(row.path, "/about");
    assert_eq!(row.device.as_deref(), Some("desktop"));
    assert_eq!(row.viewport, Some(1280));
}

#[test]
fn collect_rejects_unknown_site_when_allowlisted() {
    let mut p = pageview("site-b", "/");
    let allowed = Some(vec!["site-a".to_string()]);
    assert_eq!(collect_decision(&allowed, &mut p, None).unwrap_err(), Status::Forbidden);
}

#[test]
fn collect_rejects_oversize_path() {
    let mut p = pageview("s", &"/".repeat(3000));
    assert_eq!(collect_decision(&None, &mut p, None).unwrap_err(), Status::BadRequest);
}

#[test]
fn pageleave_dur_is_clamped() {
    let mut p = RawPayload::Pageleave {
        s: "site-1".into(),
        p: "/".into(),
        ts: 1_700_000_000_000,
        dur: 99_999_999,
        vid: None,
    };
    let row = collect_decision(&None, &mut p, None).unwrap();
    assert_eq!(row.kind, "pageleave");
    assert_eq!(row.dur_ms, Some(1_800_000));
    assert_eq!(clamp_duration(-5), 0);
    assert_eq!(clamp_duration(1234), 1234);
    assert_eq!(clamp_duration(i32::MAX), PAGELEAVE_DUR_MAX_MS);
}

#[test]
fn country_header_is_two_letters_upper_cased() {
    assert_eq!(country_code(Some(b"ie")).as_deref(), Some("IE"));
    assert_eq!(country_code(Some(b"De")).as_deref(), Some("DE"));
    assert_eq!(country_code(Some(b"usa")), None);
    assert_eq!(country_code(Some(b"\xc3\xa9")), None);
    assert_eq!(country_code(None), None);
    let mut p = pageview("s", "/");
    let row = collect_decision(&None, &mut p, Some(b"fr")).unwrap();
    assert_eq!(row.country.as_deref(), Some("FR"));
}

#[test]
fn rows_carry_only_their_kind_columns() {
    let p = RawPayload::Event {
        s: "s".into(),
        p: "/".into(),
        ts: 3,
        n: "signup".into(),
        pr: Some("{\"plan\":\"pro\"}".into()),
        vid: None,
    };
    let row = event_row(&p, None);
    assert_eq!(row.kind, "event");
    assert_eq!(row.event_name.as_deref(), Some("signup"));
    assert_eq!(row.event_props.as_deref(), Some("{\"plan\":\"pro\"}"));
    assert!(row.referrer.is_none() && row.metrics.is_none() && row.dur_ms.is_none());

    let mut p = pageview("s", "/");
    if let RawPayload::Pageview { u, .. } = &mut p {
        *u = Some(Utm { s: Some("news".into()), m: None, c: Some("spring".into()) });
    }
    let row = event_row(&p, Some("IE".into()));
    // UTM tags are validated but not stored.
    assert_eq!(row.kind, "pageview");
    assert!(row.event_name.is_none() && row.event_props.is_none());
    assert_eq!(row.country.as_deref(), Some("IE"));
}

#[test]
fn collect_stores_sanitized_vitals() {
    let mut p = RawPayload::Performance {
        s: "s".into(),
        p: "/".into(),
        ts: 0,
        pf: PerformanceMetrics {
            lcp: Some(f64::NAN.to_bits()),
            fcp: Some(800.0f64.to_bits()),
            cls: None,
            inp: None,
            ttfb: None,
        },
        vid: None,
    };
    let row = collect_decision(&None, &mut p, None).unwrap();
    let m = row.metrics.unwrap();
    assert!(m.lcp.is_none());
    assert_eq!(m.fcp.map(f64::from_bits), Some(800.0));
}

#[test]
fn allowlist_is_checked_before_the_payload() {
    let allowed = Some(vec!["site-a".to_string()]);
    let mut p = pageview("site-b", &"/".repeat(3000));
    assert_eq!(collect_decision(&allowed, &mut p, None).unwrap_err(), Status::Forbidden);
    let mut p = pageview("site-a", &"/".repeat(3000));
    assert_eq!(collect_decision(&allowed, &mut p, None).unwrap_err(), Status::BadRequest);
}
