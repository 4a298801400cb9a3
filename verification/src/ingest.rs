//! The decision behind `POST /collect`: which beacons are stored, and the row
//! each one becomes.
use vstd::prelude::*;
use crate::auth::{header_bytes, header_is_text};
use crate::config::{list_view, opt_string_view};
use crate::stats::{site_allowed, site_check};
use crate::status::Status;
use crate::types::{
    event_type_of, finite_metrics, path_of, payload_violation, sanitized, site_of,
    PerformanceMetrics, RawPayload,
};

verus! {

/// Time on page is capped at 30 minutes.
pub const PAGELEAVE_DUR_MAX_MS: i32 = 1_800_000;

/// One row of `analytics_events`, as the ingest endpoint writes it.
#[derive(Debug, Clone)]
pub struct EventRow {
    pub site_id: String,
    pub kind: &'static str,
    pub path: String,
    pub ts: i64,
    pub referrer: Option<String>,
    pub device: Option<String>,
    pub viewport: Option<i32>,
    pub event_name: Option<String>,
    /// The event's properties as the text of a JSON object.
    pub event_props: Option<String>,
    pub metrics: Option<PerformanceMetrics>,
    /// Two-letter upper-case country code, from the proxy's `x-country`.
    pub country: Option<String>,
    pub dur_ms: Option<i32>,
}

/// `b` upper-cased if it is an ASCII lower-case letter.
pub open spec fn ascii_upper(b: u8) -> u8 {
    if 97 <= b <= 122 {
        (b - 32) as u8
    } else {
        b
    }
}

/// The country code an `x-country` header gives: a text value of exactly two
/// bytes, upper-cased.
pub open spec fn country_from(header: Option<Seq<u8>>) -> Option<Seq<char>> {
    match header {
        Some(h) => if header_is_text(h) && h.len() == 2 {
            Some(seq![ascii_upper(h[0]) as char, ascii_upper(h[1]) as char])
        } else {
            None
        },
        None => None,
    }
}

/// A pageleave duration clamped to `[0, PAGELEAVE_DUR_MAX_MS]`.
pub open spec fn clamp_dur(d: i32) -> i32 {
    if d < 0 {
        0
    } else if d > PAGELEAVE_DUR_MAX_MS {
        PAGELEAVE_DUR_MAX_MS
    } else {
        d
    }
}

/// The row stored for payload `p` seen from `country`: every column a kind
/// does not carry is empty.
pub open spec fn row_matches(r: EventRow, p: RawPayload, country: Option<Seq<char>>) -> bool {
    &&& r.site_id@ == site_of(p)
    &&& r.kind@ == event_type_of(p)
    &&& r.path@ == path_of(p)
    &&& opt_string_view(r.country) == country
    &&& match p {
        RawPayload::Pageview { ts, r: referrer, d, v, .. } => {
            &&& r.ts == ts
            &&& opt_string_view(r.referrer) == opt_string_view(referrer)
            &&& opt_string_view(r.device) == opt_string_view(d)
            &&& r.viewport == v
            &&& r.event_name is None && r.event_props is None && r.metrics is None
            &&& r.dur_ms is None
        },
        RawPayload::Event { ts, n, pr, .. } => {
            &&& r.ts == ts
            &&& r.referrer is None && r.device is None && r.viewport is None
            &&& opt_string_view(r.event_name) == Some(n@)
            &&& opt_string_view(r.event_props) == opt_string_view(pr)
            &&& r.metrics is None && r.dur_ms is None
        },
        RawPayload::Performance { ts, pf, .. } => {
            &&& r.ts == ts
            &&& r.referrer is None && r.device is None && r.viewport is None
            &&& r.event_name is None && r.event_props is None
            &&& r.metrics == Some(pf)
            &&& r.dur_ms is None
        },
        RawPayload::Pageleave { ts, dur, .. } => {
            &&& r.ts == ts
            &&& r.referrer is None && r.device is None && r.viewport is None
            &&& r.event_name is None && r.event_props is None && r.metrics is None
            &&& r.dur_ms == Some(clamp_dur(dur))
        },
    }
}

/// Calls `String::from_utf8`, which turns valid UTF-8 bytes into the string
/// they encode. Claims that ASCII bytes give the string of the same chars.
#[verifier::external_body]
fn string_from_ascii(bytes: Vec<u8>) -> (r: String)
    requires
        forall|i: int| 0 <= i < bytes@.len() ==> bytes@[i] < 128,
    ensures
        r@ == Seq::new(bytes@.len(), |i: int| bytes@[i] as char),
{
    match String::from_utf8(bytes) {
        Ok(s) => s,
        Err(_) => String::new(),
    }
}

fn upper(b: u8) -> (r: u8)
    ensures
        r == ascii_upper(b),
{
    if 97 <= b && b <= 122 {
        b - 32
    } else {
        b
    }
}

/// The country code carried by the raw `x-country` header, if it is usable.
pub fn country_code(header: Option<&[u8]>) -> (r: Option<String>)
    ensures
        opt_string_view(r) == country_from(header_bytes(header)),
{
    match header {
        Some(h) => {
            if h.len() == 2 && (32 <= h[0] && h[0] < 127 || h[0] == 9) && (32 <= h[1] && h[1]
                < 127 || h[1] == 9) {
                assert(header_is_text(h@));
                let mut v: Vec<u8> = Vec::new();
                v.push(upper(h[0]));
                v.push(upper(h[1]));
                let s = string_from_ascii(v);
                assert(s@ =~= seq![ascii_upper(h@[0]) as char, ascii_upper(h@[1]) as char]);
                Some(s)
            } else {
                proof {
                    if h@.len() == 2 && header_is_text(h@) {
                        assert(h@[0] == h@[0] && h@[1] == h@[1]);
                    }
                }
                None
            }
        },
        None => None,
    }
}

/// Clamps a pageleave duration to `[0, PAGELEAVE_DUR_MAX_MS]`.
pub fn clamp_duration(d: i32) -> (r: i32)
    ensures
        r == clamp_dur(d),
{
    if d < 0 {
        0
    } else if d > PAGELEAVE_DUR_MAX_MS {
        PAGELEAVE_DUR_MAX_MS
    } else {
        d
    }
}

fn copy_opt(o: &Option<String>) -> (r: Option<String>)
    ensures
        opt_string_view(r) == opt_string_view(*o),
{
    match o {
        Some(s) => Some(s.clone()),
        None => None,
    }
}

/// The `analytics_events` row for a (validated) payload.
pub fn event_row(payload: &RawPayload, country: Option<String>) -> (r: EventRow)
    ensures
        row_matches(r, *payload, opt_string_view(country)),
        match *payload {
            RawPayload::Pageview { s, p: path, ts, r: referrer, d, v, .. } => {
                &&& r.site_id@ == s@ && r.path@ == path@ && r.ts == ts
                &&& r.kind@ == "pageview"@
                &&& opt_string_view(r.referrer) == opt_string_view(referrer)
                &&& opt_string_view(r.device) == opt_string_view(d)
                &&& r.viewport == v
            },
            RawPayload::Event { s, p: path, ts, n, pr, .. } => {
                &&& r.site_id@ == s@ && r.path@ == path@ && r.ts == ts
                &&& r.kind@ == "event"@
                &&& opt_string_view(r.event_name) == Some(n@)
                &&& opt_string_view(r.event_props) == opt_string_view(pr)
            },
            RawPayload::Performance { s, p: path, ts, pf, .. } => {
                &&& r.site_id@ == s@ && r.path@ == path@ && r.ts == ts
                &&& r.kind@ == "performance"@
                &&& r.metrics == Some(pf)
            },
            RawPayload::Pageleave { s, p: path, ts, dur, .. } => {
                &&& r.site_id@ == s@ && r.path@ == path@ && r.ts == ts
                &&& r.kind@ == "pageleave"@
                &&& r.dur_ms == Some(
                    if dur < 0 {
                        0i32
                    } else if dur > 1_800_000 {
                        1_800_000i32
                    } else {
                        dur
                    },
                )
            },
        },
        opt_string_view(r.country) == opt_string_view(country),
{
    let site_id = payload.site_id().to_owned();
    let kind = payload.event_type();
    let path = payload.path().to_owned();
    match payload {
        RawPayload::Pageview { ts, r, d, v, .. } => {
            EventRow {
                site_id,
                kind,
                path,
                ts: *ts,
                referrer: copy_opt(r),
                device: copy_opt(d),
                viewport: *v,
                event_name: None,
                event_props: None,
                metrics: None,
                country,
                dur_ms: None,
            }
        },
        RawPayload::Event { ts, n, pr, .. } => EventRow {
            site_id,
            kind,
            path,
            ts: *ts,
            referrer: None,
            device: None,
            viewport: None,
            event_name: Some(n.clone()),
            event_props: copy_opt(pr),
            metrics: None,
            country,
            dur_ms: None,
        },
        RawPayload::Performance { ts, pf, .. } => EventRow {
            site_id,
            kind,
            path,
            ts: *ts,
            referrer: None,
            device: None,
            viewport: None,
            event_name: None,
            event_props: None,
            metrics: Some(*pf),
            country,
            dur_ms: None,
        },
        RawPayload::Pageleave { ts, dur, .. } => EventRow {
            site_id,
            kind,
            path,
            ts: *ts,
            referrer: None,
            device: None,
            viewport: None,
            event_name: None,
            event_props: None,
            metrics: None,
            country,
            dur_ms: Some(clamp_duration(*dur)),
        },
    }
}

/// Decides a beacon posted to `/collect`: one for a site off the allowlist is
/// forbidden, one that breaks a field cap is a bad request, and any other is
/// stored as the returned row (the endpoint then answers `202 Accepted`).
/// Validation drops non-finite web-vitals from the payload; a refused payload
/// is left as it came.
pub fn collect_decision(
    allowed: &Option<Vec<String>>,
    payload: &mut RawPayload,
    country_header: Option<&[u8]>,
) -> (r: Result<EventRow, Status>)
    ensures
        !site_allowed(list_view(*allowed), site_of(*old(payload))) ==> r == Err::<
            EventRow,
            Status,
        >(Status::Forbidden) && *final(payload) == *old(payload),
        site_allowed(list_view(*allowed), site_of(*old(payload))) && payload_violation(
            *old(payload),
        ) is Some ==> r == Err::<EventRow, Status>(Status::BadRequest) && *final(payload)
            == *old(payload),
        site_allowed(list_view(*allowed), site_of(*old(payload))) && payload_violation(
            *old(payload),
        ) is None ==> *final(payload) == sanitized(*old(payload)) && (r matches Ok(row)
            && row_matches(row, sanitized(*old(payload)), country_from(header_bytes(country_header)))),
        site_allowed(list_view(*allowed), site_of(*old(payload))) && payload_violation(
            *old(payload),
        ) is None ==> (r matches Ok(row) && opt_string_view(row.country) == country_from(
            header_bytes(country_header),
        ) && match *old(payload) {
            RawPayload::Pageview { s, p: path, ts, r: referrer, d, v, .. } => {
                &&& row.site_id@ == s@ && row.path@ == path@ && row.ts == ts
                &&& row.kind@ == "pageview"@
                &&& opt_string_view(row.referrer) == opt_string_view(referrer)
                &&& opt_string_view(row.device) == opt_string_view(d)
                &&& row.viewport == v
            },
            RawPayload::Event { s, p: path, ts, n, pr, .. } => {
                &&& row.site_id@ == s@ && row.path@ == path@ && row.ts == ts
                &&& row.kind@ == "event"@
                &&& opt_string_view(row.event_name) == Some(n@)
                &&& opt_string_view(row.event_props) == opt_string_view(pr)
            },
            RawPayload::Performance { s, p: path, ts, pf, .. } => {
                &&& row.site_id@ == s@ && row.path@ == path@ && row.ts == ts
                &&& row.kind@ == "performance"@
                &&& row.metrics == Some(finite_metrics(pf))
            },
            RawPayload::Pageleave { s, p: path, ts, dur, .. } => {
                &&& row.site_id@ == s@ && row.path@ == path@ && row.ts == ts
                &&& row.kind@ == "pageleave"@
                &&& row.dur_ms == Some(
                    if dur < 0 {
                        0i32
                    } else if dur > 1_800_000 {
                        1_800_000i32
                    } else {
                        dur
                    },
                )
            },
        }),
{
    let checked = site_check(allowed, payload.site_id());
    if checked.is_err() {
        return Err(Status::Forbidden);
    }
    if payload.validate().is_err() {
        return Err(Status::BadRequest);
    }
    let country = country_code(country_header);
    Ok(event_row(payload, country))
}

/// A stored time on page is never negative nor above 30 minutes, and a
/// duration already in that range is stored as sent.
pub proof fn lemma_duration_capped(d: i32)
    ensures
        0 <= clamp_dur(d) <= PAGELEAVE_DUR_MAX_MS,
        0 <= d <= PAGELEAVE_DUR_MAX_MS ==> clamp_dur(d) == d,
{
}

/// A stored country code is two upper-case-or-other ASCII chars: no ASCII
/// lower-case letter survives.
pub proof fn lemma_country_upper(header: Option<Seq<u8>>)
    ensures
        country_from(header) matches Some(c) ==> c.len() == 2 && forall|i: int|
            0 <= i < 2 ==> !('a' <= #[trigger] c[i] <= 'z'),
{
}

} // verus!
