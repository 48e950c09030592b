//! Process liveness reporting.
//!
//! Intentionally shallow: liveness, not readiness. The report does not
//! consult the store.

use vstd::prelude::*;

verus! {

/// Ephemeral liveness value, built fresh for every `GET /health` request.
pub struct HealthStatus {
    pub ok: bool,
}

/// Reports liveness. Unconditionally healthy: the process answering at all
/// is the whole signal.
pub fn check() -> (r: HealthStatus)
    ensures
        r.ok,
{
    HealthStatus { ok: true }
}

} // verus!
