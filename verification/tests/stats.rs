use pagetally_server::stats::{
    clamp_limit, millis_since_epoch, default_days, default_limit, default_realtime_minutes, engagement_plan,
    events_plan, heatmap_failure, heatmap_plan, now_ms, range, range_at, realtime_plan, site_check,
    summary_plan, timeseries_plan, top_plan, valid_tz, vitals_plan, Breakdown, EngagementQuery,
    EventsQuery, HeatmapQuery, RangeQuery, RealtimeQuery, TimeseriesQuery, TopQuery, VitalsQuery,
    Window, DAY_MS,
};
use pagetally_server::status::Status;
use pagetally_server::types::TopDimension;

const NOW: i64 = 1_700_000_000_000;

fn only(site: &str) -> Option<Vec<String>> {
    Some(vec![site.to_string()])
}

#[test]
fn defaults() {
    assert_eq!(default_days(), 30);
    assert_eq!(default_limit(), 10);
    assert_eq!(default_realtime_minutes(), 5);
}

#[test]
fn range_is_clamped_to_a_year() {
    assert_eq!(range_at(30, NOW), Window { from_ts: NOW - 30 * DAY_MS, to_ts: NOW });
    assert_eq!(range_at(0, NOW), Window { from_ts: NOW - DAY_MS, to_ts: NOW });
    assert_eq!(range_at(10_000, NOW), Window { from_ts: NOW - 365 * DAY_MS, to_ts: NOW });
    let w = range(7).unwrap();
    assert_eq!(w.to_ts - w.from_ts, 7 * DAY_MS);
    // The clock reads after 2023-11-14 and is not earlier than the window's end.
    assert!(w.to_ts > NOW);
    assert!(now_ms().unwrap() >= w.to_ts);
}

#[test]
fn site_check_follows_allowlist() {
    assert_eq!(site_check(&None, "anything"), Ok(()));
    assert_eq!(site_check(&only("site-a"), "site-a"), Ok(()));
    assert_eq!(site_check(&only("site-a"), "site-b"), Err(Status::Forbidden));
    assert_eq!(site_check(&Some(vec![]), "site-a"), Err(Status::Forbidden));
    assert_eq!(Status::Forbidden.code(), 403);
}

#[test]
fn summary_compare_reads_previous_window() {
    let q = RangeQuery { site: "s".into(), days: 30, compare: Some("prev".into()) };
    let p = summary_plan(&None, &q, NOW).unwrap();
    assert_eq!(p.window, Window { from_ts: NOW - 30 * DAY_MS, to_ts: NOW });
    assert_eq!(
        p.previous,
        Some(Window { from_ts: NOW - 60 * DAY_MS, to_ts: NOW - 30 * DAY_MS })
    );
    let q = RangeQuery { site: "s".into(), days: 30, compare: Some("next".into()) };
    assert_eq!(summary_plan(&None, &q, NOW).unwrap().previous, None);
    assert_eq!(summary_plan(&only("x"), &q, NOW), Err(Status::Forbidden));
}

#[test]
fn timeseries_bucket_defaults_to_day() {
    let mut q = TimeseriesQuery { site: "s".into(), days: 1, bucket: None };
    assert_eq!(timeseries_plan(&None, &q, NOW).unwrap().bucket, "day");
    q.bucket = Some("hour".into());
    assert_eq!(timeseries_plan(&None, &q, NOW).unwrap().bucket, "hour");
    q.bucket = Some("week".into());
    assert_eq!(timeseries_plan(&None, &q, NOW).unwrap().bucket, "day");
}

#[test]
fn top_checks_dimension_and_clamps_limit() {
    let q = TopQuery { site: "s".into(), days: 30, dim: "country".into(), limit: 1000 };
    let p = top_plan(&None, &q, NOW).unwrap();
    assert_eq!(p.dim, TopDimension::Country);
    assert_eq!(p.limit, 100);
    let q = TopQuery { site: "s".into(), days: 30, dim: "color".into(), limit: 0 };
    assert_eq!(top_plan(&None, &q, NOW), Err(Status::BadRequest));
    assert_eq!(top_plan(&only("t"), &q, NOW), Err(Status::Forbidden));
    assert_eq!(clamp_limit(0), 1);
    assert_eq!(clamp_limit(42), 42);
}

#[test]
fn events_breakdown_needs_a_name() {
    let q = EventsQuery { site: "s".into(), days: 30, name: None, by: Some("plan".into()), limit: 10 };
    assert_eq!(events_plan(&None, &q, NOW), Err(Status::BadRequest));
    let q = EventsQuery {
        site: "s".into(),
        days: 30,
        name: Some("signup".into()),
        by: Some("plan".into()),
        limit: 10,
    };
    assert_eq!(events_plan(&None, &q, NOW).unwrap().limit, 10);
}

#[test]
fn vitals_and_engagement_dimensions() {
    let q = VitalsQuery { site: "s".into(), days: 30, dim: None, limit: 10 };
    assert_eq!(vitals_plan(&None, &q, NOW).unwrap().breakdown, Breakdown::SiteWide);
    let q = VitalsQuery { site: "s".into(), days: 30, dim: Some("path".into()), limit: 500 };
    assert_eq!(vitals_plan(&None, &q, NOW).unwrap().breakdown, Breakdown::ByPath { limit: 100 });
    let q = EngagementQuery { site: "s".into(), days: 30, dim: Some("device".into()), limit: 5 };
    assert_eq!(engagement_plan(&None, &q, NOW), Err(Status::BadRequest));
}

#[test]
fn heatmap_timezones() {
    assert!(valid_tz("Europe/Dublin"));
    assert!(valid_tz("Etc/GMT+5"));
    assert!(!valid_tz("UTC; DROP TABLE"));
    assert!(!valid_tz(&"A".repeat(65)));
    let q = HeatmapQuery { site: "s".into(), days: 7, tz: None };
    assert_eq!(heatmap_plan(&None, &q, NOW).unwrap().tz, "UTC");
    let q = HeatmapQuery { site: "s".into(), days: 7, tz: Some("Bad Zone".into()) };
    assert_eq!(heatmap_plan(&None, &q, NOW).unwrap_err(), Status::BadRequest);
    assert_eq!(heatmap_failure(Some("22023")), Status::BadRequest);
    assert_eq!(heatmap_failure(Some("42P01")), Status::InternalServerError);
    assert_eq!(heatmap_failure(None), Status::InternalServerError);
}

#[test]
fn realtime_minutes_are_clamped() {
    let q = RealtimeQuery { site: "s".into(), minutes: 0 };
    assert_eq!(realtime_plan(&None, &q), Ok(1));
    let q = RealtimeQuery { site: "s".into(), minutes: 600 };
    assert_eq!(realtime_plan(&None, &q), Ok(60));
}

#[test]
fn millis_since_epoch_counts_whole_milliseconds() {
    assert_eq!(millis_since_epoch(0, 0), Some(0));
    assert_eq!(millis_since_epoch(1_700_000_000, 123_999_999), Some(1_700_000_000_123));
    assert_eq!(millis_since_epoch(u64::MAX, 0), None);
    assert_eq!(millis_since_epoch(i64::MAX as u64, 0), None);
}
