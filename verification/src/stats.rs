//! The decisions behind the `/stats/*` endpoints: which site may be read,
//! which time window a request covers, and how its parameters are checked and
//! clamped before the database is asked.
use vstd::prelude::*;
use vstd::utf8::encode_utf8;
use crate::config::list_view;
use crate::status::Status;
use crate::text::str_eq;
use crate::types::{dimension_named, TopDimension};

verus! {

/// Milliseconds in a day.
pub const DAY_MS: i64 = 86_400_000;

/// `?site=&days=&compare=`: `compare=prev` adds the preceding equal window.
#[derive(Debug, Clone)]
pub struct RangeQuery {
    pub site: String,
    pub days: u32,
    pub compare: Option<String>,
}

/// `?site=&days=&bucket=`: `bucket` is `hour` or (by default) `day`.
#[derive(Debug, Clone)]
pub struct TimeseriesQuery {
    pub site: String,
    pub days: u32,
    pub bucket: Option<String>,
}

/// `?site=&days=&dim=&limit=`.
#[derive(Debug, Clone)]
pub struct TopQuery {
    pub site: String,
    pub days: u32,
    pub dim: String,
    pub limit: u32,
}

/// `?site=&days=&name=&by=&limit=`: `by` breaks one event down by a prop.
#[derive(Debug, Clone)]
pub struct EventsQuery {
    pub site: String,
    pub days: u32,
    pub name: Option<String>,
    pub by: Option<String>,
    pub limit: u32,
}

/// `?site=&days=&dim=&limit=`: `dim=path` switches to a per-path array.
#[derive(Debug, Clone)]
pub struct VitalsQuery {
    pub site: String,
    pub days: u32,
    pub dim: Option<String>,
    pub limit: u32,
}

/// `?site=&days=&tz=`: IANA timezone for hour-of-day bucketing, UTC by default.
#[derive(Debug, Clone)]
pub struct HeatmapQuery {
    pub site: String,
    pub days: u32,
    pub tz: Option<String>,
}

/// `?site=&minutes=`: trailing window in minutes, clamped to 1–60.
#[derive(Debug, Clone)]
pub struct RealtimeQuery {
    pub site: String,
    pub minutes: u32,
}

/// `?site=&days=&dim=&limit=`: `dim=path` switches to a per-path array.
#[derive(Debug, Clone)]
pub struct EngagementQuery {
    pub site: String,
    pub days: u32,
    pub dim: Option<String>,
    pub limit: u32,
}

/// Default `days` of a query: 30.
pub fn default_days() -> (r: u32)
    ensures
        r == 30,
{
    30
}

/// Default `limit` of a query: 10.
pub fn default_limit() -> (r: u32)
    ensures
        r == 10,
{
    10
}

/// Default `minutes` of a realtime query: 5.
pub fn default_realtime_minutes() -> (r: u32)
    ensures
        r == 5,
{
    5
}

/// `x` clamped to `[lo, hi]`.
pub open spec fn clamp(x: int, lo: int, hi: int) -> int {
    if x < lo {
        lo
    } else if x > hi {
        hi
    } else {
        x
    }
}

/// A time window `[from_ts, to_ts]` in milliseconds since the Unix epoch.
#[derive(Debug, Clone, Copy, PartialEq, Eq, Structural)]
pub struct Window {
    pub from_ts: i64,
    pub to_ts: i64,
}

/// The window that ends at `now_ms` and spans `days` days, clamped to 1–365.
pub open spec fn window_for(days: u32, now_ms: i64) -> Window {
    Window {
        from_ts: (now_ms - clamp(days as int, 1, 365) * DAY_MS) as i64,
        to_ts: now_ms,
    }
}

/// The window of the same length that ends where `w` starts.
pub open spec fn previous_window(w: Window) -> Window {
    Window { from_ts: (w.from_ts - (w.to_ts - w.from_ts)) as i64, to_ts: w.from_ts }
}

/// Whether `site` may be read or written: any site when no allowlist is set.
pub open spec fn site_allowed(allowed: Option<Seq<Seq<char>>>, site: Seq<char>) -> bool {
    match allowed {
        Some(list) => list.contains(site),
        None => true,
    }
}

/// Clamps `days` to 1–365.
pub fn clamp_days(days: u32) -> (r: i64)
    ensures
        r == clamp(days as int, 1, 365),
{
    if days < 1 {
        1
    } else if days > 365 {
        365
    } else {
        days as i64
    }
}

/// Clamps a row limit to 1–100.
pub fn clamp_limit(limit: u32) -> (r: i64)
    ensures
        r == clamp(limit as int, 1, 100),
{
    if limit < 1 {
        1
    } else if limit > 100 {
        100
    } else {
        limit as i64
    }
}

/// Clamps a realtime window to 1–60 minutes.
pub fn clamp_minutes(minutes: u32) -> (r: i32)
    ensures
        r == clamp(minutes as int, 1, 60),
{
    if minutes < 1 {
        1
    } else if minutes > 60 {
        60
    } else {
        minutes as i32
    }
}

/// Calls `std::time::SystemTime::UNIX_EPOCH.elapsed()`: the whole seconds and
/// the remaining nanoseconds by which the system clock is past the Unix epoch.
/// Claims only that the nanoseconds are below one second (`subsec_nanos`); the
/// reading itself is the clock's. `None` when the clock is set before the
/// epoch (`elapsed` then returns an error).
#[verifier::external_body]
fn since_epoch() -> (r: Option<(u64, u32)>)
    ensures
        r matches Some(d) ==> d.1 < 1_000_000_000,
{
    match std::time::SystemTime::UNIX_EPOCH.elapsed() {
        Ok(d) => Some((d.as_secs(), d.subsec_nanos())),
        Err(_) => None,
    }
}

/// Calls `chrono::DateTime::<Utc>::from_timestamp(secs, nanos)` and then
/// `timestamp_millis` on the result. Claims that a result, when there is one,
/// is `secs * 1000 + nanos / 1_000_000`: `from_timestamp` keeps `secs` as the
/// timestamp and `nanos` as the sub-second part, and `timestamp_millis` adds
/// the whole milliseconds of that part. Claims too that chrono answers for
/// every instant from the epoch up to `8_000_000_000_000` seconds past it
/// (about the year 255,000; chrono's dates reach the year 262,142); it does
/// not state where beyond that, or before the epoch, chrono answers `None`.
#[verifier::external_body]
fn utc_timestamp_millis(secs: i64, nanos: u32) -> (r: Option<i64>)
    requires
        nanos < 1_000_000_000,
    ensures
        r matches Some(ms) ==> ms == secs * 1000 + nanos / 1_000_000,
        0 <= secs <= 8_000_000_000_000 ==> r is Some,
{
    match chrono::DateTime::<chrono::Utc>::from_timestamp(secs, nanos) {
        Some(dt) => Some(dt.timestamp_millis()),
        None => None,
    }
}

/// The current time in milliseconds since the Unix epoch, as chrono gives
/// it; `None` when the system clock is set before the epoch or beyond the
/// dates chrono can represent.
pub fn now_ms() -> (r: Option<i64>)
    ensures
        r matches Some(t) ==> t >= 0,
{
    match since_epoch() {
        Some((secs, nanos)) => millis_since_epoch(secs, nanos),
        None => None,
    }
}

/// The milliseconds since the Unix epoch of an instant `secs` seconds and
/// `nanos` nanoseconds past it, as chrono counts them: always found up to
/// `8_000_000_000_000` seconds; `None` for seconds beyond `i64`, or when
/// chrono cannot represent the instant.
pub fn millis_since_epoch(secs: u64, nanos: u32) -> (r: Option<i64>)
    requires
        nanos < 1_000_000_000,
    ensures
        secs > i64::MAX as u64 ==> r is None,
        r matches Some(ms) ==> ms == secs * 1000 + nanos / 1_000_000,
        secs <= 8_000_000_000_000 ==> r == Some((secs * 1000 + nanos / 1_000_000) as i64),
{
    if secs <= i64::MAX as u64 {
        utc_timestamp_millis(secs as i64, nanos)
    } else {
        None
    }
}

/// The window of `days` days (clamped to 1–365) that ends at `now_ms`.
pub fn range_at(days: u32, now_ms: i64) -> (r: Window)
    requires
        now_ms >= 0,
    ensures
        r == window_for(days, now_ms),
{
    let d = clamp_days(days);
    Window { from_ts: now_ms - d * DAY_MS, to_ts: now_ms }
}

/// The window of `days` days (clamped to 1–365) that ends now; `None` when
/// the clock gives no usable reading (see `now_ms`).
pub fn range(days: u32) -> (r: Option<Window>)
    ensures
        r matches Some(w) ==> w.to_ts >= 0 && w == window_for(days, w.to_ts),
{
    match now_ms() {
        Some(now) => Some(range_at(days, now)),
        None => None,
    }
}

/// Whether `site` is one of the strings in `list`.
pub fn list_contains(list: &Vec<String>, site: &str) -> (r: bool)
    ensures
        r == list.deep_view().contains(site@),
{
    let mut i: usize = 0;
    while i < list.len()
        invariant
            i <= list@.len(),
            forall|j: int| 0 <= j < i ==> list.deep_view()[j] != site@,
        decreases list@.len() - i,
    {
        if str_eq(list[i].as_str(), site) {
            assert(list.deep_view()[i as int] == site@);
            return true;
        }
        i = i + 1;
    }
    proof {
        if list.deep_view().contains(site@) {
            let k = choose|k: int| 0 <= k < list.deep_view().len() && list.deep_view()[k] == site@;
            assert(list.deep_view()[k] != site@);
        }
    }
    false
}

/// Refuses a site that is not on the allowlist with `403 Forbidden`.
pub fn site_check(allowed: &Option<Vec<String>>, site: &str) -> (r: Result<(), Status>)
    ensures
        r is Ok <==> site_allowed(list_view(*allowed), site@),
        r is Err ==> r == Err::<(), Status>(Status::Forbidden),
{
    match allowed {
        None => Ok(()),
        Some(list) => if list_contains(list, site) {
            Ok(())
        } else {
            Err(Status::Forbidden)
        },
    }
}

/// The windows a summary request reads.
#[derive(Debug, Clone, Copy, PartialEq, Eq, Structural)]
pub struct SummaryPlan {
    pub window: Window,
    /// The preceding window of equal length, when `compare=prev` asks for it.
    pub previous: Option<Window>,
}

pub open spec fn opt_is(v: Option<String>, s: Seq<char>) -> bool {
    v matches Some(x) && x@ == s
}

fn opt_str_is(v: &Option<String>, s: &str) -> (r: bool)
    ensures
        r == opt_is(*v, s@),
{
    match v {
        Some(x) => str_eq(x.as_str(), s),
        None => false,
    }
}

/// `GET /stats/summary`.
pub fn summary_plan(allowed: &Option<Vec<String>>, q: &RangeQuery, now_ms: i64) -> (r: Result<
    SummaryPlan,
    Status,
>)
    requires
        now_ms >= 0,
    ensures
        !site_allowed(list_view(*allowed), q.site@) <==> r is Err,
        r is Err ==> r == Err::<SummaryPlan, Status>(Status::Forbidden),
        r matches Ok(p) ==> p.window == window_for(q.days, now_ms) && p.previous == (if opt_is(
            q.compare,
            "prev"@,
        ) {
            Some(previous_window(window_for(q.days, now_ms)))
        } else {
            None
        }),
{
    site_check(allowed, q.site.as_str())?;
    let window = range_at(q.days, now_ms);
    let previous = if opt_str_is(&q.compare, "prev") {
        let span = window.to_ts - window.from_ts;
        Some(Window { from_ts: window.from_ts - span, to_ts: window.from_ts })
    } else {
        None
    };
    Ok(SummaryPlan { window, previous })
}

/// What a timeseries request reads and how it buckets.
#[derive(Debug, Clone, Copy)]
pub struct TimeseriesPlan {
    pub window: Window,
    /// `"hour"` or `"day"`.
    pub bucket: &'static str,
}

/// `GET /stats/timeseries`: any bucket other than `hour` is `day`.
pub fn timeseries_plan(allowed: &Option<Vec<String>>, q: &TimeseriesQuery, now_ms: i64) -> (r:
    Result<TimeseriesPlan, Status>)
    requires
        now_ms >= 0,
    ensures
        !site_allowed(list_view(*allowed), q.site@) <==> r is Err,
        r matches Err(e) ==> e == Status::Forbidden,
        r matches Ok(p) ==> p.window == window_for(q.days, now_ms) && p.bucket@ == (if opt_is(
            q.bucket,
            "hour"@,
        ) {
            "hour"@
        } else {
            "day"@
        }),
{
    site_check(allowed, q.site.as_str())?;
    let window = range_at(q.days, now_ms);
    let bucket = if opt_str_is(&q.bucket, "hour") {
        "hour"
    } else {
        "day"
    };
    Ok(TimeseriesPlan { window, bucket })
}

/// What a top-N request reads.
#[derive(Debug, Clone, Copy, PartialEq, Eq, Structural)]
pub struct TopPlan {
    pub window: Window,
    pub dim: TopDimension,
    pub limit: i64,
}

/// `GET /stats/top`: an unknown dimension is a bad request.
pub fn top_plan(allowed: &Option<Vec<String>>, q: &TopQuery, now_ms: i64) -> (r: Result<
    TopPlan,
    Status,
>)
    requires
        now_ms >= 0,
    ensures
        r == (if !site_allowed(list_view(*allowed), q.site@) {
            Err(Status::Forbidden)
        } else {
            match dimension_named(q.dim@) {
                None => Err(Status::BadRequest),
                Some(dim) => Ok(
                    TopPlan {
                        window: window_for(q.days, now_ms),
                        dim,
                        limit: clamp(q.limit as int, 1, 100) as i64,
                    },
                ),
            }
        }),
{
    site_check(allowed, q.site.as_str())?;
    let dim = match TopDimension::parse(q.dim.as_str()) {
        Some(d) => d,
        None => return Err(Status::BadRequest),
    };
    let limit = clamp_limit(q.limit);
    let window = range_at(q.days, now_ms);
    Ok(TopPlan { window, dim, limit })
}

/// What an events request reads.
#[derive(Debug, Clone, Copy, PartialEq, Eq, Structural)]
pub struct EventsPlan {
    pub window: Window,
    pub limit: i64,
}

/// `GET /stats/events`: a prop breakdown (`by`) needs an event (`name`).
pub fn events_plan(allowed: &Option<Vec<String>>, q: &EventsQuery, now_ms: i64) -> (r: Result<
    EventsPlan,
    Status,
>)
    requires
        now_ms >= 0,
    ensures
        r == (if !site_allowed(list_view(*allowed), q.site@) {
            Err(Status::Forbidden)
        } else if q.by is Some && q.name is None {
            Err(Status::BadRequest)
        } else {
            Ok(
                EventsPlan {
                    window: window_for(q.days, now_ms),
                    limit: clamp(q.limit as int, 1, 100) as i64,
                },
            )
        }),
{
    site_check(allowed, q.site.as_str())?;
    if q.by.is_some() && q.name.is_none() {
        return Err(Status::BadRequest);
    }
    let limit = clamp_limit(q.limit);
    let window = range_at(q.days, now_ms);
    Ok(EventsPlan { window, limit })
}

/// Site-wide figures, or one row per path.
#[derive(Debug, Clone, Copy, PartialEq, Eq, Structural)]
pub enum Breakdown {
    SiteWide,
    ByPath { limit: i64 },
}

/// What a vitals or engagement request reads.
#[derive(Debug, Clone, Copy, PartialEq, Eq, Structural)]
pub struct BreakdownPlan {
    pub window: Window,
    pub breakdown: Breakdown,
}

/// The breakdown a `dim` parameter selects: none, `path`, or a bad request.
pub open spec fn breakdown_for(dim: Option<String>, limit: u32) -> Result<Breakdown, Status> {
    match dim {
        None => Ok(Breakdown::SiteWide),
        Some(d) => if d@ == "path"@ {
            Ok(Breakdown::ByPath { limit: clamp(limit as int, 1, 100) as i64 })
        } else {
            Err(Status::BadRequest)
        },
    }
}

pub open spec fn breakdown_plan_spec(
    allowed: Option<Seq<Seq<char>>>,
    site: Seq<char>,
    days: u32,
    dim: Option<String>,
    limit: u32,
    now_ms: i64,
) -> Result<BreakdownPlan, Status> {
    if !site_allowed(allowed, site) {
        Err(Status::Forbidden)
    } else {
        match breakdown_for(dim, limit) {
            Ok(b) => Ok(BreakdownPlan { window: window_for(days, now_ms), breakdown: b }),
            Err(e) => Err(e),
        }
    }
}

fn breakdown_plan(
    allowed: &Option<Vec<String>>,
    site: &str,
    days: u32,
    dim: &Option<String>,
    limit: u32,
    now_ms: i64,
) -> (r: Result<BreakdownPlan, Status>)
    requires
        now_ms >= 0,
    ensures
        r == breakdown_plan_spec(list_view(*allowed), site@, days, *dim, limit, now_ms),
{
    site_check(allowed, site)?;
    let window = range_at(days, now_ms);
    let breakdown = match dim {
        None => Breakdown::SiteWide,
        Some(d) => if str_eq(d.as_str(), "path") {
            Breakdown::ByPath { limit: clamp_limit(limit) }
        } else {
            return Err(Status::BadRequest);
        },
    };
    Ok(BreakdownPlan { window, breakdown })
}

/// `GET /stats/vitals`.
pub fn vitals_plan(allowed: &Option<Vec<String>>, q: &VitalsQuery, now_ms: i64) -> (r: Result<
    BreakdownPlan,
    Status,
>)
    requires
        now_ms >= 0,
    ensures
        r == breakdown_plan_spec(list_view(*allowed), q.site@, q.days, q.dim, q.limit, now_ms),
{
    breakdown_plan(allowed, q.site.as_str(), q.days, &q.dim, q.limit, now_ms)
}

/// `GET /stats/engagement`.
pub fn engagement_plan(allowed: &Option<Vec<String>>, q: &EngagementQuery, now_ms: i64) -> (r:
    Result<BreakdownPlan, Status>)
    requires
        now_ms >= 0,
    ensures
        r == breakdown_plan_spec(list_view(*allowed), q.site@, q.days, q.dim, q.limit, now_ms),
{
    breakdown_plan(allowed, q.site.as_str(), q.days, &q.dim, q.limit, now_ms)
}

/// `GET /stats/channels`.
pub fn channels_plan(allowed: &Option<Vec<String>>, q: &RangeQuery, now_ms: i64) -> (r: Result<
    Window,
    Status,
>)
    requires
        now_ms >= 0,
    ensures
        r == (if site_allowed(list_view(*allowed), q.site@) {
            Ok(window_for(q.days, now_ms))
        } else {
            Err(Status::Forbidden)
        }),
{
    site_check(allowed, q.site.as_str())?;
    Ok(range_at(q.days, now_ms))
}

/// `GET /stats/realtime`: the trailing minutes to count, clamped to 1–60.
pub fn realtime_plan(allowed: &Option<Vec<String>>, q: &RealtimeQuery) -> (r: Result<i32, Status>)
    ensures
        r == (if site_allowed(list_view(*allowed), q.site@) {
            Ok(clamp(q.minutes as int, 1, 60) as i32)
        } else {
            Err(Status::Forbidden)
        }),
{
    site_check(allowed, q.site.as_str())?;
    Ok(clamp_minutes(q.minutes))
}

/// A timezone byte that may appear in an IANA name or offset.
pub open spec fn tz_byte(b: u8) -> bool {
    ||| 48 <= b <= 57
    ||| 65 <= b <= 90
    ||| 97 <= b <= 122
    ||| b == 43
    ||| b == 45
    ||| b == 95
    ||| b == 47
}

/// A timezone name the heatmap accepts: at most 64 bytes of ASCII letters,
/// digits and `+ - _ /`.
pub open spec fn tz_acceptable(tz: Seq<char>) -> bool {
    let b = encode_utf8(tz);
    b.len() <= 64 && forall|i: int| 0 <= i < b.len() ==> tz_byte(#[trigger] b[i])
}

/// Whether `tz` is a timezone name the heatmap accepts.
pub fn valid_tz(tz: &str) -> (r: bool)
    ensures
        r == tz_acceptable(tz@),
{
    let b = tz.as_bytes();
    if b.len() > 64 {
        return false;
    }
    let mut i: usize = 0;
    while i < b.len()
        invariant
            b@ == encode_utf8(tz@),
            i <= b@.len(),
            forall|j: int| 0 <= j < i ==> tz_byte(#[trigger] b@[j]),
        decreases b@.len() - i,
    {
        let c = b[i];
        let ok = (48 <= c && c <= 57) || (65 <= c && c <= 90) || (97 <= c && c <= 122) || c == 43
            || c == 45 || c == 95 || c == 47;
        if !ok {
            return false;
        }
        i = i + 1;
    }
    true
}

/// What a heatmap request reads.
#[derive(Debug, Clone)]
pub struct HeatmapPlan {
    pub window: Window,
    pub tz: String,
}

/// The timezone a heatmap query names, UTC when it names none.
pub open spec fn tz_of(q: HeatmapQuery) -> Seq<char> {
    match q.tz {
        Some(t) => t@,
        None => "UTC"@,
    }
}

/// `GET /stats/heatmap`: a malformed timezone is a bad request.
pub fn heatmap_plan(allowed: &Option<Vec<String>>, q: &HeatmapQuery, now_ms: i64) -> (r: Result<
    HeatmapPlan,
    Status,
>)
    requires
        now_ms >= 0,
    ensures
        !site_allowed(list_view(*allowed), q.site@) ==> r == Err::<HeatmapPlan, Status>(
            Status::Forbidden,
        ),
        site_allowed(list_view(*allowed), q.site@) && !tz_acceptable(tz_of(*q)) ==> r == Err::<
            HeatmapPlan,
            Status,
        >(Status::BadRequest),
        site_allowed(list_view(*allowed), q.site@) && tz_acceptable(tz_of(*q)) ==> r is Ok,
        r matches Ok(p) ==> p.window == window_for(q.days, now_ms) && p.tz@ == tz_of(*q),
{
    site_check(allowed, q.site.as_str())?;
    let tz: String = match &q.tz {
        Some(t) => t.clone(),
        None => "UTC".to_owned(),
    };
    if !valid_tz(tz.as_str()) {
        return Err(Status::BadRequest);
    }
    let window = range_at(q.days, now_ms);
    Ok(HeatmapPlan { window, tz })
}

/// The status for a failed heatmap query: Postgres reports an unknown
/// timezone as `invalid_parameter_value` (SQLSTATE `22023`), which is the
/// client's fault; anything else is the server's.
pub fn heatmap_failure(sqlstate: Option<&str>) -> (r: Status)
    ensures
        r == (if sqlstate matches Some(c) && c@ == "22023"@ {
            Status::BadRequest
        } else {
            Status::InternalServerError
        }),
{
    match sqlstate {
        Some(c) => if str_eq(c, "22023") {
            Status::BadRequest
        } else {
            Status::InternalServerError
        },
        None => Status::InternalServerError,
    }
}

/// Every window ends at the time it was taken and spans between 1 and 365
/// whole days.
pub proof fn lemma_window_span(days: u32, now_ms: i64)
    requires
        now_ms >= 0,
    ensures
        window_for(days, now_ms).to_ts == now_ms,
        window_for(days, now_ms).to_ts - window_for(days, now_ms).from_ts == clamp(
            days as int,
            1,
            365,
        ) * DAY_MS,
        DAY_MS <= window_for(days, now_ms).to_ts - window_for(days, now_ms).from_ts <= 365
            * DAY_MS,
{
}

/// The comparison window of a summary has the same length as the current one
/// and ends exactly where it starts.
pub proof fn lemma_previous_window_adjacent(days: u32, now_ms: i64)
    requires
        now_ms >= 0,
    ensures
        previous_window(window_for(days, now_ms)).to_ts == window_for(days, now_ms).from_ts,
        previous_window(window_for(days, now_ms)).to_ts - previous_window(
            window_for(days, now_ms),
        ).from_ts == window_for(days, now_ms).to_ts - window_for(days, now_ms).from_ts,
{
}

/// Without an allowlist every site is accepted; with one, exactly the listed
/// sites are.
pub proof fn lemma_allowlist(list: Seq<Seq<char>>, site: Seq<char>)
    ensures
        site_allowed(None, site),
        site_allowed(Some(list), site) <==> list.contains(site),
{
}

/// Row limits are always within 1–100 and realtime windows within 1–60
/// minutes; values already in range are kept.
pub proof fn lemma_clamp_bounds(x: int, lo: int, hi: int)
    requires
        lo <= hi,
    ensures
        lo <= clamp(x, lo, hi) <= hi,
        lo <= x <= hi ==> clamp(x, lo, hi) == x,
        x < lo ==> clamp(x, lo, hi) == lo,
        x > hi ==> clamp(x, lo, hi) == hi,
{
}

/// `dim=path` asks for one row per path, as many as the requested limit
/// after it is brought into 1–100; no `dim` asks for site-wide figures; any
/// other `dim` is a bad request.
pub proof fn lemma_breakdown_limit(dim: String, limit: u32)
    ensures
        breakdown_for(None, limit) == Ok::<Breakdown, Status>(Breakdown::SiteWide),
        dim@ == "path"@ ==> breakdown_for(Some(dim), limit) == Ok::<Breakdown, Status>(
            Breakdown::ByPath {
                limit: if limit == 0 {
                    1
                } else if limit > 100 {
                    100
                } else {
                    limit as i64
                },
            },
        ),
        dim@ != "path"@ ==> breakdown_for(Some(dim), limit) == Err::<Breakdown, Status>(
            Status::BadRequest,
        ),
{
}

/// A timezone name letter: ASCII letters and digits, `+`, `-`, `_` and `/`.
pub open spec fn tz_name_char(c: char) -> bool {
    ||| 'a' <= c <= 'z'
    ||| 'A' <= c <= 'Z'
    ||| '0' <= c <= '9'
    ||| c == '+'
    ||| c == '-'
    ||| c == '_'
    ||| c == '/'
}

/// An ASCII timezone name is accepted exactly when it has at most 64
/// characters, each an ASCII letter or digit or one of `+ - _ /`; so names
/// such as `America/New_York` or `Etc/GMT+5` pass and `Bad Zone` fails.
pub proof fn lemma_tz_ascii_names(tz: Seq<char>)
    requires
        vstd::utf8::is_ascii_chars(tz),
    ensures
        tz_acceptable(tz) <==> (tz.len() <= 64 && forall|i: int|
            0 <= i < tz.len() ==> tz_name_char(#[trigger] tz[i])),
{
    vstd::utf8::is_ascii_chars_encode_utf8(tz);
    let b = encode_utf8(tz);
    assert forall|i: int| 0 <= i < tz.len() implies (tz_byte(#[trigger] b[i]) <==> tz_name_char(
        tz[i],
    )) by {
        let c = tz[i];
        let u = c as u32;
        assert(u < 128);
        assert((u as u8) as u32 == u) by (bit_vector)
            requires
                u < 128,
        ;
        assert(c as u8 == b[i]);
        assert(c as u8 == u as u8);
    }
    if tz_acceptable(tz) {
        assert forall|i: int| 0 <= i < tz.len() implies tz_name_char(#[trigger] tz[i]) by {
            assert(tz_byte(b[i]));
        }
    }
    if tz.len() <= 64 && forall|i: int| 0 <= i < tz.len() ==> tz_name_char(#[trigger] tz[i]) {
        assert forall|i: int| 0 <= i < b.len() implies tz_byte(#[trigger] b[i]) by {
            assert(tz_name_char(tz[i]));
        }
    }
}

} // verus!
