//! The beacon payload sent by the browser tracker, its validation, and the
//! dimensions the `top` report can group by.
use vstd::prelude::*;
use crate::text::{byte_len, str_eq};

verus! {

pub const MAX_SITE_ID: usize = 64;
pub const MAX_PATH: usize = 2048;
pub const MAX_REFERRER: usize = 253;
pub const MAX_EVENT_NAME: usize = 64;
pub const MAX_UTM: usize = 128;
pub const MAX_VID: usize = 64;

/// UTM campaign tags parsed from the landing URL query string (pageview only).
#[derive(Debug, Clone)]
pub struct Utm {
    pub s: Option<String>,
    pub m: Option<String>,
    pub c: Option<String>,
}

/// Web-vitals measurements. Each value is held as the IEEE-754 bit pattern of
/// the `f64` the browser reported (`f64::to_bits`), so that finiteness can be
/// decided on integers.
#[derive(Debug, Clone, Copy, PartialEq, Eq, Structural)]
pub struct PerformanceMetrics {
    pub lcp: Option<u64>,
    pub fcp: Option<u64>,
    pub cls: Option<u64>,
    pub inp: Option<u64>,
    pub ttfb: Option<u64>,
}

/// One beacon from the tracker, tagged by its kind.
#[derive(Debug, Clone)]
pub enum RawPayload {
    Pageview {
        s: String,
        p: String,
        ts: i64,
        r: Option<String>,
        d: Option<String>,
        v: Option<i32>,
        u: Option<Utm>,
        vid: Option<String>,
    },
    Event {
        s: String,
        p: String,
        ts: i64,
        n: String,
        /// The event's properties as the text of a JSON object.
        pr: Option<String>,
        vid: Option<String>,
    },
    Performance { s: String, p: String, ts: i64, pf: PerformanceMetrics, vid: Option<String> },
    Pageleave { s: String, p: String, ts: i64, dur: i32, vid: Option<String> },
}

/// Which per-field cap a payload broke.
#[derive(Debug, Clone, Copy, PartialEq, Eq, Structural)]
pub enum PayloadError {
    SiteId,
    Path,
    Referrer,
    Utm,
    EventName,
    Vid,
}

impl PayloadError {
    /// The message the ingest endpoint reports for this error.
    pub fn message(&self) -> (r: &'static str)
        ensures
            r@ == payload_error_message(*self),
    {
        match self {
            PayloadError::SiteId => "invalid site_id",
            PayloadError::Path => "invalid path",
            PayloadError::Referrer => "invalid referrer",
            PayloadError::Utm => "invalid utm",
            PayloadError::EventName => "invalid event name",
            PayloadError::Vid => "invalid vid",
        }
    }
}

pub open spec fn payload_error_message(e: PayloadError) -> Seq<char> {
    match e {
        PayloadError::SiteId => "invalid site_id"@,
        PayloadError::Path => "invalid path"@,
        PayloadError::Referrer => "invalid referrer"@,
        PayloadError::Utm => "invalid utm"@,
        PayloadError::EventName => "invalid event name"@,
        PayloadError::Vid => "invalid vid"@,
    }
}

pub open spec fn site_of(p: RawPayload) -> Seq<char> {
    match p {
        RawPayload::Pageview { s, .. } => s@,
        RawPayload::Event { s, .. } => s@,
        RawPayload::Performance { s, .. } => s@,
        RawPayload::Pageleave { s, .. } => s@,
    }
}

pub open spec fn path_of(p: RawPayload) -> Seq<char> {
    match p {
        RawPayload::Pageview { p, .. } => p@,
        RawPayload::Event { p, .. } => p@,
        RawPayload::Performance { p, .. } => p@,
        RawPayload::Pageleave { p, .. } => p@,
    }
}

pub open spec fn opt_view(o: Option<String>) -> Option<Seq<char>> {
    match o {
        Some(v) => Some(v@),
        None => None,
    }
}

pub open spec fn vid_of(p: RawPayload) -> Option<Seq<char>> {
    match p {
        RawPayload::Pageview { vid, .. } => opt_view(vid),
        RawPayload::Event { vid, .. } => opt_view(vid),
        RawPayload::Performance { vid, .. } => opt_view(vid),
        RawPayload::Pageleave { vid, .. } => opt_view(vid),
    }
}

pub open spec fn event_type_of(p: RawPayload) -> Seq<char> {
    match p {
        RawPayload::Pageview { .. } => "pageview"@,
        RawPayload::Event { .. } => "event"@,
        RawPayload::Performance { .. } => "performance"@,
        RawPayload::Pageleave { .. } => "pageleave"@,
    }
}

/// A string is present and longer than `max` bytes.
pub open spec fn longer_than(o: Option<Seq<char>>, max: usize) -> bool {
    o matches Some(v) && byte_len(v) > max
}

/// Some UTM tag is longer than `MAX_UTM` bytes.
pub open spec fn utm_too_long(u: Utm) -> bool {
    ||| longer_than(opt_view(u.s), MAX_UTM)
    ||| longer_than(opt_view(u.m), MAX_UTM)
    ||| longer_than(opt_view(u.c), MAX_UTM)
}

/// A site id or event name: not empty and at most `max` bytes.
pub open spec fn bounded_nonempty(s: Seq<char>, max: usize) -> bool {
    s.len() != 0 && byte_len(s) <= max
}

/// The first per-field cap, in the order the checks run, that `p` breaks;
/// `None` when the payload is acceptable.
pub open spec fn payload_violation(p: RawPayload) -> Option<PayloadError> {
    if !bounded_nonempty(site_of(p), MAX_SITE_ID) {
        Some(PayloadError::SiteId)
    } else if !bounded_nonempty(path_of(p), MAX_PATH) {
        Some(PayloadError::Path)
    } else if p matches RawPayload::Pageview { r, .. } && longer_than(opt_view(r), MAX_REFERRER) {
        Some(PayloadError::Referrer)
    } else if p matches RawPayload::Pageview { u: Some(u), .. } && utm_too_long(u) {
        Some(PayloadError::Utm)
    } else if p matches RawPayload::Event { n, .. } && !bounded_nonempty(n@, MAX_EVENT_NAME) {
        Some(PayloadError::EventName)
    } else if longer_than(vid_of(p), MAX_VID) {
        Some(PayloadError::Vid)
    } else {
        None
    }
}

/// The `f64` whose bits are `b` is finite: its exponent field is not all ones
/// (all ones encodes the infinities and the NaNs).
pub open spec fn finite_bits(b: u64) -> bool {
    (b >> 52u64) & 0x7ffu64 != 0x7ffu64
}

pub open spec fn finite_or_none(v: Option<u64>) -> Option<u64> {
    match v {
        Some(b) => if finite_bits(b) { Some(b) } else { None },
        None => None,
    }
}

pub open spec fn finite_metrics(m: PerformanceMetrics) -> PerformanceMetrics {
    PerformanceMetrics {
        lcp: finite_or_none(m.lcp),
        fcp: finite_or_none(m.fcp),
        cls: finite_or_none(m.cls),
        inp: finite_or_none(m.inp),
        ttfb: finite_or_none(m.ttfb),
    }
}

/// The payload with every non-finite web-vital dropped; other kinds unchanged.
pub open spec fn sanitized(p: RawPayload) -> RawPayload {
    match p {
        RawPayload::Performance { s, p, ts, pf, vid } => RawPayload::Performance {
            s,
            p,
            ts,
            pf: finite_metrics(pf),
            vid,
        },
        _ => p,
    }
}

/// Keeps a measurement only when it is a finite number.
pub fn finite_only(v: Option<u64>) -> (r: Option<u64>)
    ensures
        r == finite_or_none(v),
{
    match v {
        Some(b) => if (b >> 52u64) & 0x7ffu64 != 0x7ffu64 {
            Some(b)
        } else {
            None
        },
        None => None,
    }
}

impl PerformanceMetrics {
    /// Drops every measurement that is NaN or infinite.
    pub fn drop_non_finite(&mut self)
        ensures
            *final(self) == finite_metrics(*old(self)),
    {
        self.lcp = finite_only(self.lcp);
        self.fcp = finite_only(self.fcp);
        self.cls = finite_only(self.cls);
        self.inp = finite_only(self.inp);
        self.ttfb = finite_only(self.ttfb);
    }
}

fn longer_than_exec(o: &Option<String>, max: usize) -> (r: bool)
    ensures
        r == longer_than(opt_view(*o), max),
{
    match o {
        Some(v) => v.as_str().len() > max,
        None => false,
    }
}

fn bounded_nonempty_exec(s: &str, max: usize) -> (r: bool)
    ensures
        r == bounded_nonempty(s@, max),
{
    !s.is_empty() && s.len() <= max
}

impl RawPayload {
    /// The site the beacon belongs to.
    pub fn site_id(&self) -> (r: &str)
        ensures
            r@ == site_of(*self),
    {
        match self {
            RawPayload::Pageview { s, .. } => s.as_str(),
            RawPayload::Event { s, .. } => s.as_str(),
            RawPayload::Performance { s, .. } => s.as_str(),
            RawPayload::Pageleave { s, .. } => s.as_str(),
        }
    }

    /// The page path the beacon was sent from.
    pub fn path(&self) -> (r: &str)
        ensures
            r@ == path_of(*self),
    {
        match self {
            RawPayload::Pageview { p, .. } => p.as_str(),
            RawPayload::Event { p, .. } => p.as_str(),
            RawPayload::Performance { p, .. } => p.as_str(),
            RawPayload::Pageleave { p, .. } => p.as_str(),
        }
    }

    /// The visitor id, when the tracker sent one.
    pub fn vid(&self) -> (r: Option<&str>)
        ensures
            match r {
                Some(v) => vid_of(*self) == Some(v@),
                None => vid_of(*self) is None,
            },
    {
        let vid = match self {
            RawPayload::Pageview { vid, .. } => vid,
            RawPayload::Event { vid, .. } => vid,
            RawPayload::Performance { vid, .. } => vid,
            RawPayload::Pageleave { vid, .. } => vid,
        };
        match vid {
            Some(v) => Some(v.as_str()),
            None => None,
        }
    }

    /// The kind of beacon as stored in the `type` column.
    pub fn event_type(&self) -> (r: &'static str)
        ensures
            r@ == event_type_of(*self),
    {
        match self {
            RawPayload::Pageview { .. } => "pageview",
            RawPayload::Event { .. } => "event",
            RawPayload::Performance { .. } => "performance",
            RawPayload::Pageleave { .. } => "pageleave",
        }
    }

    /// Runs the per-field caps in order and reports the first one broken.
    fn check_caps(&self) -> (r: Result<(), PayloadError>)
        ensures
            r == (match payload_violation(*self) {
                Some(e) => Err(e),
                None => Ok(()),
            }),
    {
        if !bounded_nonempty_exec(self.site_id(), MAX_SITE_ID) {
            return Err(PayloadError::SiteId);
        }
        if !bounded_nonempty_exec(self.path(), MAX_PATH) {
            return Err(PayloadError::Path);
        }
        if let RawPayload::Pageview { r, .. } = self {
            if longer_than_exec(r, MAX_REFERRER) {
                return Err(PayloadError::Referrer);
            }
        }
        if let RawPayload::Pageview { u: Some(u), .. } = self {
            if longer_than_exec(&u.s, MAX_UTM) || longer_than_exec(&u.m, MAX_UTM)
                || longer_than_exec(&u.c, MAX_UTM) {
                return Err(PayloadError::Utm);
            }
        }
        if let RawPayload::Event { n, .. } = self {
            if !bounded_nonempty_exec(n.as_str(), MAX_EVENT_NAME) {
                return Err(PayloadError::EventName);
            }
        }
        if let Some(v) = self.vid() {
            if v.len() > MAX_VID {
                return Err(PayloadError::Vid);
            }
        }
        Ok(())
    }

    /// Validates user-supplied lengths and drops non-finite web-vitals. The
    /// body size is capped at the router; these per-field caps keep a single
    /// payload from stuffing one giant value into an indexed column. A payload
    /// that fails a cap is left untouched.
    pub fn validate(&mut self) -> (r: Result<(), PayloadError>)
        ensures
            r == (match payload_violation(*old(self)) {
                Some(e) => Err(e),
                None => Ok(()),
            }),
            r is Ok ==> *final(self) == sanitized(*old(self)),
            r is Err ==> *final(self) == *old(self),
    {
        let checked = self.check_caps();
        if let Err(e) = checked {
            return Err(e);
        }
        match self {
            RawPayload::Performance { pf, .. } => pf.drop_non_finite(),
            _ => {},
        }
        Ok(())
    }
}

/// A column the `top` report can group pageviews by.
#[derive(Debug, Clone, Copy, PartialEq, Eq, Structural)]
pub enum TopDimension {
    Path,
    Referrer,
    Country,
    Device,
    UtmSource,
    UtmMedium,
    UtmCampaign,
}

/// The name of each dimension, both in the query string and as a column.
pub open spec fn dimension_name(d: TopDimension) -> Seq<char> {
    match d {
        TopDimension::Path => "path"@,
        TopDimension::Referrer => "referrer"@,
        TopDimension::Country => "country"@,
        TopDimension::Device => "device"@,
        TopDimension::UtmSource => "utm_source"@,
        TopDimension::UtmMedium => "utm_medium"@,
        TopDimension::UtmCampaign => "utm_campaign"@,
    }
}

/// The dimension named `s`, if any.
pub open spec fn dimension_named(s: Seq<char>) -> Option<TopDimension> {
    if s == "path"@ {
        Some(TopDimension::Path)
    } else if s == "referrer"@ {
        Some(TopDimension::Referrer)
    } else if s == "country"@ {
        Some(TopDimension::Country)
    } else if s == "device"@ {
        Some(TopDimension::Device)
    } else if s == "utm_source"@ {
        Some(TopDimension::UtmSource)
    } else if s == "utm_medium"@ {
        Some(TopDimension::UtmMedium)
    } else if s == "utm_campaign"@ {
        Some(TopDimension::UtmCampaign)
    } else {
        None
    }
}

impl TopDimension {
    /// Parses the `dim` query parameter; `None` for an unknown name.
    pub fn parse(s: &str) -> (r: Option<Self>)
        ensures
            r == dimension_named(s@),
    {
        if str_eq(s, "path") {
            Some(Self::Path)
        } else if str_eq(s, "referrer") {
            Some(Self::Referrer)
        } else if str_eq(s, "country") {
            Some(Self::Country)
        } else if str_eq(s, "device") {
            Some(Self::Device)
        } else if str_eq(s, "utm_source") {
            Some(Self::UtmSource)
        } else if str_eq(s, "utm_medium") {
            Some(Self::UtmMedium)
        } else if str_eq(s, "utm_campaign") {
            Some(Self::UtmCampaign)
        } else {
            None
        }
    }

    /// The `analytics_events` column this dimension groups by.
    pub fn column(&self) -> (r: &'static str)
        ensures
            r@ == dimension_name(*self),
    {
        match self {
            Self::Path => "path",
            Self::Referrer => "referrer",
            Self::Country => "country",
            Self::Device => "device",
            Self::UtmSource => "utm_source",
            Self::UtmMedium => "utm_medium",
            Self::UtmCampaign => "utm_campaign",
        }
    }
}

/// Every dimension is parsed back from its own column name.
pub proof fn lemma_parse_column_roundtrip(d: TopDimension)
    ensures
        dimension_named(dimension_name(d)) == Some(d),
{
    reveal_strlit("path");
    reveal_strlit("referrer");
    reveal_strlit("country");
    reveal_strlit("device");
    reveal_strlit("utm_source");
    reveal_strlit("utm_medium");
    reveal_strlit("utm_campaign");
    let names = seq![
        "path"@, "referrer"@, "country"@, "device"@, "utm_source"@, "utm_medium"@,
        "utm_campaign"@,
    ];
    assert(names[0].len() == 4 && names[1].len() == 8 && names[2].len() == 7);
    assert(names[3].len() == 6 && names[4].len() == 10 && names[5].len() == 10);
    assert(names[6].len() == 12);
    assert(names[4][4] != names[5][4]);
}

/// Whatever `parse` accepts is exactly the column name of what it returns.
pub proof fn lemma_parse_names_column(s: Seq<char>)
    ensures
        dimension_named(s) matches Some(d) ==> dimension_name(d) == s,
{
}

/// Dropping non-finite web-vitals changes nothing that validation checks or
/// that identifies the beacon.
pub proof fn lemma_sanitized_keeps_fields(p: RawPayload)
    ensures
        site_of(sanitized(p)) == site_of(p),
        path_of(sanitized(p)) == path_of(p),
        vid_of(sanitized(p)) == vid_of(p),
        event_type_of(sanitized(p)) == event_type_of(p),
        payload_violation(sanitized(p)) == payload_violation(p),
{
}

/// Validation is idempotent: a payload it accepted is accepted again and left
/// as it is.
pub proof fn lemma_validate_idempotent(p: RawPayload)
    requires
        payload_violation(p) is None,
    ensures
        payload_violation(sanitized(p)) is None,
        sanitized(sanitized(p)) == sanitized(p),
{
    lemma_sanitized_keeps_fields(p);
    if let RawPayload::Performance { pf, .. } = p {
        assert(finite_metrics(finite_metrics(pf)) == finite_metrics(pf));
    }
}

/// After validation every web-vital that is kept is finite, and every finite
/// one is kept.
pub proof fn lemma_kept_vitals_finite(m: PerformanceMetrics)
    ensures
        finite_metrics(m).lcp matches Some(b) ==> finite_bits(b),
        finite_metrics(m).fcp matches Some(b) ==> finite_bits(b),
        finite_metrics(m).cls matches Some(b) ==> finite_bits(b),
        finite_metrics(m).inp matches Some(b) ==> finite_bits(b),
        finite_metrics(m).ttfb matches Some(b) ==> finite_bits(b),
        m.lcp matches Some(b) && finite_bits(b) ==> finite_metrics(m).lcp == m.lcp,
        m.fcp matches Some(b) && finite_bits(b) ==> finite_metrics(m).fcp == m.fcp,
        m.cls matches Some(b) && finite_bits(b) ==> finite_metrics(m).cls == m.cls,
        m.inp matches Some(b) && finite_bits(b) ==> finite_metrics(m).inp == m.inp,
        m.ttfb matches Some(b) && finite_bits(b) ==> finite_metrics(m).ttfb == m.ttfb,
{
}

/// A web-vital is kept exactly when the `f64` it holds is finite, i.e. when
/// the exponent field of its bits (`0x7ff0_0000_0000_0000`) is not all ones:
/// zero, subnormals and every ordinary number are kept; the infinities and
/// the NaNs are dropped.
pub proof fn lemma_finite_or_none_exact(b: u64)
    ensures
        finite_or_none(Some(b)) == (if b & 0x7ff0_0000_0000_0000u64 == 0x7ff0_0000_0000_0000u64 {
            None
        } else {
            Some(b)
        }),
        finite_or_none(None) is None,
{
    assert(((b >> 52u64) & 0x7ffu64 != 0x7ffu64) == (b & 0x7ff0_0000_0000_0000u64
        != 0x7ff0_0000_0000_0000u64)) by (bit_vector);
}

/// Dropping non-finite web-vitals keeps every finite measurement of every
/// field and drops every infinite or NaN one.
pub proof fn lemma_finite_metrics_exact(m: PerformanceMetrics)
    ensures
        finite_metrics(m).lcp == (match m.lcp {
            Some(b) => if b & 0x7ff0_0000_0000_0000u64 == 0x7ff0_0000_0000_0000u64 {
                None
            } else {
                Some(b)
            },
            None => None,
        }),
        finite_metrics(m).fcp == (match m.fcp {
            Some(b) => if b & 0x7ff0_0000_0000_0000u64 == 0x7ff0_0000_0000_0000u64 {
                None
            } else {
                Some(b)
            },
            None => None,
        }),
        finite_metrics(m).cls == (match m.cls {
            Some(b) => if b & 0x7ff0_0000_0000_0000u64 == 0x7ff0_0000_0000_0000u64 {
                None
            } else {
                Some(b)
            },
            None => None,
        }),
        finite_metrics(m).inp == (match m.inp {
            Some(b) => if b & 0x7ff0_0000_0000_0000u64 == 0x7ff0_0000_0000_0000u64 {
                None
            } else {
                Some(b)
            },
            None => None,
        }),
        finite_metrics(m).ttfb == (match m.ttfb {
            Some(b) => if b & 0x7ff0_0000_0000_0000u64 == 0x7ff0_0000_0000_0000u64 {
                None
            } else {
                Some(b)
            },
            None => None,
        }),
{
    if let Some(b) = m.lcp {
        lemma_finite_or_none_exact(b);
    }
    if let Some(b) = m.fcp {
        lemma_finite_or_none_exact(b);
    }
    if let Some(b) = m.cls {
        lemma_finite_or_none_exact(b);
    }
    if let Some(b) = m.inp {
        lemma_finite_or_none_exact(b);
    }
    if let Some(b) = m.ttfb {
        lemma_finite_or_none_exact(b);
    }
}

/// Each query name parses to the dimension of that name, and each
/// dimension groups by the column of that name.
pub proof fn lemma_dimension_names()
    ensures
        dimension_named("path"@) == Some(TopDimension::Path),
        dimension_named("referrer"@) == Some(TopDimension::Referrer),
        dimension_named("country"@) == Some(TopDimension::Country),
        dimension_named("device"@) == Some(TopDimension::Device),
        dimension_named("utm_source"@) == Some(TopDimension::UtmSource),
        dimension_named("utm_medium"@) == Some(TopDimension::UtmMedium),
        dimension_named("utm_campaign"@) == Some(TopDimension::UtmCampaign),
        dimension_name(TopDimension::Path) == "path"@,
        dimension_name(TopDimension::Referrer) == "referrer"@,
        dimension_name(TopDimension::Country) == "country"@,
        dimension_name(TopDimension::Device) == "device"@,
        dimension_name(TopDimension::UtmSource) == "utm_source"@,
        dimension_name(TopDimension::UtmMedium) == "utm_medium"@,
        dimension_name(TopDimension::UtmCampaign) == "utm_campaign"@,
{
    lemma_parse_column_roundtrip(TopDimension::Path);
    lemma_parse_column_roundtrip(TopDimension::Referrer);
    lemma_parse_column_roundtrip(TopDimension::Country);
    lemma_parse_column_roundtrip(TopDimension::Device);
    lemma_parse_column_roundtrip(TopDimension::UtmSource);
    lemma_parse_column_roundtrip(TopDimension::UtmMedium);
    lemma_parse_column_roundtrip(TopDimension::UtmCampaign);
}

} // verus!
