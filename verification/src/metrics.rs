//! Per-request metrics: counters tagged by route and outcome.
//!
//! Per-route counters observe only requests that passed admission; a request
//! rejected by admission control is expected backpressure, not an error, and
//! is counted in its own rejection counter rather than under any route.

use vstd::prelude::*;

verus! {

/// A counter bumped by one, sticking at the maximum rather than wrapping.
pub open spec fn incr(c: u64) -> u64 {
    if c < u64::MAX {
        (c + 1) as u64
    } else {
        c
    }
}

/// Bumps one counter.
pub fn bump(c: u64) -> (r: u64)
    ensures
        r == incr(c),
{
    if c < u64::MAX {
        c + 1
    } else {
        c
    }
}

/// The process-wide counters, tagged by route and outcome.
#[derive(Clone, Copy, Debug, PartialEq, Eq, Structural)]
pub struct Metrics {
    /// Health checks answered.
    pub health_ok: u64,
    /// List requests answered from the store.
    pub list_ok: u64,
    /// List requests failed by the store.
    pub list_err: u64,
    /// Create requests whose insert succeeded.
    pub create_ok: u64,
    /// Create requests whose insert failed.
    pub create_err: u64,
    /// Metrics snapshots served.
    pub metrics_ok: u64,
    /// Admitted requests that matched no route.
    pub not_found: u64,
    /// Requests rejected by admission control, counted apart from any route.
    pub rejected_total: u64,
}

impl Metrics {
    /// All counters at zero.
    pub open spec fn zero() -> Metrics {
        Metrics {
            health_ok: 0,
            list_ok: 0,
            list_err: 0,
            create_ok: 0,
            create_err: 0,
            metrics_ok: 0,
            not_found: 0,
            rejected_total: 0,
        }
    }

    /// All counters at zero.
    pub fn new() -> (m: Metrics)
        ensures
            m == Metrics::zero(),
    {
        Metrics {
            health_ok: 0,
            list_ok: 0,
            list_err: 0,
            create_ok: 0,
            create_err: 0,
            metrics_ok: 0,
            not_found: 0,
            rejected_total: 0,
        }
    }
}

} // verus!
