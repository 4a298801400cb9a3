//! Fixed limits of the HTTP layer and the cross-origin policy of `/stats/*`.
use vstd::prelude::*;
use crate::config::list_view;

verus! {

/// Largest request body accepted by `/collect` and `/contact`, in bytes.
pub const PUBLIC_BODY_LIMIT: usize = 16384;

/// Every request is cut off after this many seconds.
pub const REQUEST_TIMEOUT_SECS: u64 = 15;

/// `/collect` refills one request per this many milliseconds (about 120 a
/// minute once the burst is spent).
pub const COLLECT_REFILL_MS: u64 = 500;

/// `/collect` absorbs bursts of this many requests per client address.
pub const COLLECT_BURST: u32 = 60;

/// `/contact` refills one request per this many seconds (5 a minute).
pub const CONTACT_REFILL_SECS: u64 = 12;

/// `/contact` absorbs bursts of this many requests per client address.
pub const CONTACT_BURST: u32 = 3;

/// Rate-limit state of clients idle this long is dropped, in seconds.
pub const LIMITER_SWEEP_SECS: u64 = 60;

/// Which browser origins may read `/stats/*`.
#[derive(Debug, Clone)]
pub enum StatsCors {
    AnyOrigin,
    Origins(Vec<String>),
}

/// The configured origins when there is at least one, otherwise any origin.
pub fn stats_cors(origins: &Option<Vec<String>>) -> (r: StatsCors)
    ensures
        match list_view(*origins) {
            Some(l) if l.len() > 0 => r matches StatsCors::Origins(v) && v.deep_view() == l,
            _ => r is AnyOrigin,
        },
{
    match origins {
        Some(list) => if list.len() > 0 {
            StatsCors::Origins(list.clone())
        } else {
            StatsCors::AnyOrigin
        },
        None => StatsCors::AnyOrigin,
    }
}

} // verus!
