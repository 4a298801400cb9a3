use pagetally_server::types::{
    PayloadError, PerformanceMetrics, RawPayload, TopDimension, Utm, MAX_EVENT_NAME, MAX_PATH,
    MAX_REFERRER, MAX_SITE_ID, MAX_UTM, MAX_VID,
};

fn pv(s: &str, p: &str) -> RawPayload {
    RawPayload::Pageview {
        s: s.into(),
        p: p.into(),
        ts: 0,
        r: None,
        d: None,
        v: None,
        u: None,
        vid: None,
    }
}

fn event(n: &str) -> RawPayload {
    RawPayload::Event { s: "s".into(), p: "/".into(), ts: 0, n: n.into(), pr: None, vid: None }
}

#[test]
fn rejects_empty_site() {
    assert!(pv("", "/").validate().is_err());
}

#[test]
fn rejects_oversize_site() {
    assert!(pv(&"x".repeat(MAX_SITE_ID + 1), "/").validate().is_err());
}

#[test]
fn rejects_empty_path() {
    assert!(pv("s", "").validate().is_err());
}

#[test]
fn rejects_oversize_path() {
    assert!(pv("s", &"a".repeat(MAX_PATH + 1)).validate().is_err());
}

#[test]
fn accepts_normal_pageview() {
    assert!(pv("site-1", "/about").validate().is_ok());
}

#[test]
fn rejects_oversize_referrer() {
    let mut p = pv("s", "/");
    if let RawPayload::Pageview { r, .. } = &mut p {
        *r = Some("a".repeat(MAX_REFERRER + 1));
    }
    assert!(p.validate().is_err());
}

#[test]
fn rejects_empty_event_name() {
    let mut p = event("");
    assert!(p.validate().is_err());
}

#[test]
fn rejects_oversize_event_name() {
    let mut p = event(&"n".repeat(MAX_EVENT_NAME + 1));
    assert!(p.validate().is_err());
}

#[test]
fn drops_non_finite_metrics() {
    let mut p = RawPayload::Performance {
        s: "s".into(),
        p: "/".into(),
        ts: 0,
        pf: PerformanceMetrics {
            lcp: Some(f64::NAN.to_bits()),
            fcp: Some(f64::INFINITY.to_bits()),
            cls: Some(0.1f64.to_bits()),
            inp: Some(f64::NEG_INFINITY.to_bits()),
            ttfb: None,
        },
        vid: None,
    };
    p.validate().unwrap();
    if let RawPayload::Performance { pf, .. } = p {
        assert!(pf.lcp.is_none());
        assert!(pf.fcp.is_none());
        assert_eq!(pf.cls.map(f64::from_bits), Some(0.1));
        assert!(pf.inp.is_none());
    } else {
        panic!()
    }
}

#[test]
fn site_and_path_caps_are_inclusive() {
    assert!(pv(&"x".repeat(MAX_SITE_ID), &"a".repeat(MAX_PATH)).validate().is_ok());
}

#[test]
fn caps_count_bytes_not_chars() {
    // 33 two-byte chars are 66 bytes, over the 64-byte cap.
    assert_eq!(pv(&"é".repeat(33), "/").validate(), Err(PayloadError::SiteId));
    assert!(pv(&"é".repeat(32), "/").validate().is_ok());
}

#[test]
fn reports_the_first_broken_cap() {
    assert_eq!(pv("", "").validate(), Err(PayloadError::SiteId));
    assert_eq!(pv("s", "").validate(), Err(PayloadError::Path));
    assert_eq!(event("").validate(), Err(PayloadError::EventName));
    assert_eq!(PayloadError::Path.message(), "invalid path");
    assert_eq!(PayloadError::SiteId.message(), "invalid site_id");
}

#[test]
fn rejects_oversize_utm_and_vid() {
    let mut p = pv("s", "/");
    if let RawPayload::Pageview { u, .. } = &mut p {
        *u = Some(Utm { s: None, m: Some("m".repeat(MAX_UTM + 1)), c: None });
    }
    assert_eq!(p.validate(), Err(PayloadError::Utm));

    let mut p = pv("s", "/");
    if let RawPayload::Pageview { u, .. } = &mut p {
        *u = Some(Utm { s: Some("m".repeat(MAX_UTM)), m: None, c: None });
    }
    assert!(p.validate().is_ok());

    let mut p = RawPayload::Pageleave {
        s: "s".into(),
        p: "/".into(),
        ts: 0,
        dur: 5,
        vid: Some("v".repeat(MAX_VID + 1)),
    };
    assert_eq!(p.validate(), Err(PayloadError::Vid));
}

#[test]
fn rejected_payload_is_left_untouched() {
    let mut p = RawPayload::Performance {
        s: "".into(),
        p: "/".into(),
        ts: 0,
        pf: PerformanceMetrics {
            lcp: Some(f64::NAN.to_bits()),
            fcp: None,
            cls: None,
            inp: None,
            ttfb: None,
        },
        vid: None,
    };
    assert!(p.validate().is_err());
    if let RawPayload::Performance { pf, .. } = p {
        assert!(pf.lcp.is_some());
    }
}

#[test]
fn validate_is_idempotent() {
    let mut p = RawPayload::Performance {
        s: "s".into(),
        p: "/x".into(),
        ts: 7,
        pf: PerformanceMetrics {
            lcp: Some(2500.0f64.to_bits()),
            fcp: Some(f64::NAN.to_bits()),
            cls: None,
            inp: None,
            ttfb: Some(12.5f64.to_bits()),
        },
        vid: Some("v1".into()),
    };
    assert!(p.validate().is_ok());
    let once = format!("{:?}", p);
    assert!(p.validate().is_ok());
    assert_eq!(format!("{:?}", p), once);
}

#[test]
fn accessors_report_payload_fields() {
    let p = RawPayload::Pageleave {
        s: "site-9".into(),
        p: "/bye".into(),
        ts: 1,
        dur: 10,
        vid: Some("abc".into()),
    };
    assert_eq!(p.site_id(), "site-9");
    assert_eq!(p.path(), "/bye");
    assert_eq!(p.vid(), Some("abc"));
    assert_eq!(p.event_type(), "pageleave");
    assert_eq!(pv("a", "/").event_type(), "pageview");
    assert_eq!(event("n").event_type(), "event");
    assert_eq!(pv("a", "/").vid(), None);
}

#[test]
fn top_dimension_parse_and_column_round_trip() {
    let all = [
        TopDimension::Path,
        TopDimension::Referrer,
        TopDimension::Country,
        TopDimension::Device,
        TopDimension::UtmSource,
        TopDimension::UtmMedium,
        TopDimension::UtmCampaign,
    ];
    for d in all {
        assert_eq!(TopDimension::parse(d.column()), Some(d));
    }
    assert_eq!(TopDimension::parse("utm_campaign"), Some(TopDimension::UtmCampaign));
    assert_eq!(TopDimension::Referrer.column(), "referrer");
    assert_eq!(TopDimension::parse("Path"), None);
    assert_eq!(TopDimension::parse(""), None);
    assert_eq!(TopDimension::parse("paths"), None);
}
