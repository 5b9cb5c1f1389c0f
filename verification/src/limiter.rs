//! Rate limiting for the analysis service: a floor on the spacing of outbound
//! requests, plus an exponential backoff penalty that grows only on confirmed
//! quota pressure and is reset by any other classified response.

use vstd::prelude::*;
use crate::config::{INITIAL_BACKOFF_SECS, MAX_BACKOFF_SECS, MIN_REQUEST_INTERVAL_MS};

verus! {

/// The backoff value after one more rate-limited response: doubled, floored
/// at `INITIAL_BACKOFF_SECS`, capped at `MAX_BACKOFF_SECS`.
pub open spec fn next_backoff(b: int) -> int {
    let doubled = if 2 * b >= INITIAL_BACKOFF_SECS {
        2 * b
    } else {
        INITIAL_BACKOFF_SECS as int
    };
    if doubled <= MAX_BACKOFF_SECS {
        doubled
    } else {
        MAX_BACKOFF_SECS as int
    }
}

/// Spacing state of the outbound request path. Times are monotonic
/// milliseconds; the backoff is in whole seconds.
pub struct RateLimiter {
    /// Current penalty imposed before the next request, in seconds.
    pub backoff_secs: u64,
    /// When the last request went out.
    pub last_request_at_ms: u64,
}

impl RateLimiter {
    /// The backoff is zero or sits between its floor and its cap.
    pub open spec fn wf(&self) -> bool {
        self.backoff_secs == 0 || INITIAL_BACKOFF_SECS <= self.backoff_secs <= MAX_BACKOFF_SECS
    }

    /// No request may go out before this instant: the last request plus the
    /// minimum interval plus the current backoff penalty.
    pub open spec fn earliest_next_ms(&self) -> int {
        self.last_request_at_ms + MIN_REQUEST_INTERVAL_MS + self.backoff_secs * 1000
    }

    /// A fresh limiter lets its first request go out at once: the last
    /// request is backdated by one minimum interval.
    pub fn new(now_ms: u64) -> (r: Self)
        ensures
            r.wf(),
            r.backoff_secs == 0,
            r.last_request_at_ms == (if now_ms >= MIN_REQUEST_INTERVAL_MS {
                now_ms - MIN_REQUEST_INTERVAL_MS
            } else {
                0
            }),
    {
        let backdated = if now_ms >= MIN_REQUEST_INTERVAL_MS {
            now_ms - MIN_REQUEST_INTERVAL_MS
        } else {
            0
        };
        RateLimiter { backoff_secs: 0, last_request_at_ms: backdated }
    }

    /// How long the caller must still hold the next request: the rest of the
    /// minimum interval, plus the whole backoff penalty.
    pub fn required_wait_ms(&self, now_ms: u64) -> (w: u64)
        requires
            self.wf(),
            self.last_request_at_ms <= now_ms,
        ensures
            w == (if now_ms >= self.last_request_at_ms + MIN_REQUEST_INTERVAL_MS {
                0int
            } else {
                self.last_request_at_ms + MIN_REQUEST_INTERVAL_MS - now_ms
            }) + self.backoff_secs * 1000,
            now_ms + w >= self.earliest_next_ms(),
    {
        let since = now_ms - self.last_request_at_ms;
        let interval_rest = if since >= MIN_REQUEST_INTERVAL_MS {
            0
        } else {
            MIN_REQUEST_INTERVAL_MS - since
        };
        interval_rest + self.backoff_secs * 1000
    }

    /// Stamps an outbound request that goes out now. The protocol demands
    /// that the caller has held the request until the earliest allowed
    /// instant.
    pub fn begin_request(&mut self, now_ms: u64)
        requires
            old(self).wf(),
            now_ms >= old(self).earliest_next_ms(),
        ensures
            final(self).wf(),
            final(self).backoff_secs == old(self).backoff_secs,
            final(self).last_request_at_ms == now_ms,
    {
        self.last_request_at_ms = now_ms;
    }

    /// Escalates the backoff after a confirmed rate-limited response.
    pub fn record_rate_limited(&mut self)
        requires
            old(self).wf(),
        ensures
            final(self).wf(),
            final(self).backoff_secs == next_backoff(old(self).backoff_secs as int),
            final(self).last_request_at_ms == old(self).last_request_at_ms,
    {
        let doubled = if self.backoff_secs * 2 >= INITIAL_BACKOFF_SECS {
            self.backoff_secs * 2
        } else {
            INITIAL_BACKOFF_SECS
        };
        self.backoff_secs = if doubled <= MAX_BACKOFF_SECS {
            doubled
        } else {
            MAX_BACKOFF_SECS
        };
    }

    /// Clears the backoff after a response that shows no quota pressure.
    pub fn record_unthrottled(&mut self)
        ensures
            final(self).wf(),
            final(self).backoff_secs == 0,
            final(self).last_request_at_ms == old(self).last_request_at_ms,
    {
        self.backoff_secs = 0;
    }
}

/// Below the cap, each rate-limited response strictly raises the backoff, and
/// the new value never passes the cap; at the cap it stays there.
pub proof fn lemma_backoff_escalates(b: int)
    requires
        b == 0 || INITIAL_BACKOFF_SECS <= b <= MAX_BACKOFF_SECS,
    ensures
        b < MAX_BACKOFF_SECS ==> next_backoff(b) > b,
        INITIAL_BACKOFF_SECS <= next_backoff(b) <= MAX_BACKOFF_SECS,
        b == MAX_BACKOFF_SECS ==> next_backoff(b) == MAX_BACKOFF_SECS,
{
}

/// The minimum inter-request interval is always honored: if one request was
/// stamped at `t1` and the next obeys the protocol's gate, the two are at
/// least `MIN_REQUEST_INTERVAL_MS` apart.
pub proof fn lemma_min_interval_honored(l: RateLimiter, t1: u64, t2: u64)
    requires
        l.last_request_at_ms == t1,
        t2 >= l.earliest_next_ms(),
    ensures
        t2 - t1 >= MIN_REQUEST_INTERVAL_MS,
{
}

} // verus!
