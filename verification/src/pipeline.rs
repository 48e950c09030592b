//! The per-request pipeline: tracing, admission, dispatch, handler
//! semantics and metrics, in that designed order.
//!
//! One request is handled in two steps. `begin` opens the trace span,
//! takes the admission decision and dispatches on the route table; a
//! rejected request gets its response right there, so it can never reach a
//! handler or the store. For an admitted request the caller performs the
//! store work of the dispatched route (the only suspension point) and hands
//! the outcome to the matching `finish_*` step, which builds the response,
//! records the route's metrics and closes the span. Rejected requests are
//! still traced and counted, under the rejection counter rather than a
//! route.

use vstd::prelude::*;
use vstd::string::StringSliceAdditionalSpecFns;

use crate::admission::{spec_admits, spec_step, TokenBucket};
use crate::item::{item_matches_row, list_items, Item, ItemRow, LIST_LIMIT};
use crate::metrics::{bump, incr, Metrics};
use crate::router::{dispatch, spec_dispatch, Method, Route};

verus! {

/// A store-layer failure, already stripped to its taxonomy: the pool or
/// connection was unavailable, or the store rejected the statement. The
/// detail text stays at the boundary; only the variant crosses into the
/// core.
#[derive(Clone, Copy, Debug, PartialEq, Eq, Structural)]
pub enum StoreError {
    Unavailable,
    QueryFailed,
}

/// What one request left in the trace: a span is opened for every request,
/// admitted or not, and closed on every completion path.
#[derive(Clone, Copy, Debug, PartialEq, Eq, Structural)]
pub struct TraceLog {
    pub opened: u64,
    pub closed: u64,
}

/// A response as the core decides it; rendering to JSON or text is the
/// caller's concern.
pub struct Response {
    pub status: u16,
    pub body: Body,
}

/// The response payload.
pub enum Body {
    /// No payload (rejection and not-found outcomes).
    Empty,
    /// The liveness report, unconditionally healthy.
    Health,
    /// The listed items, newest first, at most `LIST_LIMIT` of them.
    Items(Vec<Item>),
    /// The created item, derived fields included.
    Created(Item),
    /// A snapshot of the counters as they stood before this request.
    MetricsSnapshot(Metrics),
    /// A store failure: clients get the fixed opaque token and nothing else.
    Error,
}

/// The fixed opaque token that stands for every store failure on the wire;
/// internal error detail never crosses the HTTP boundary.
pub fn opaque_error_token() -> (s: String)
    ensures
        s@ == "db_error"@,
{
    "db_error".to_owned()
}

/// The admission decision for one request.
pub enum AdmissionOutcome {
    /// Rejected before routing: here is the whole response; no handler and
    /// no store operation may run for this request.
    Rejected(Response),
    /// Admitted and dispatched: the caller runs this route's handler and
    /// hands the outcome to the matching `finish_*` step.
    Admitted(Route),
}

/// The process-wide pipeline state: the admission bucket, the counters and
/// the trace log. Built once at startup; every request goes through it.
pub struct Gateway {
    pub bucket: TokenBucket,
    pub metrics: Metrics,
    pub trace: TraceLog,
}

impl Gateway {
    /// A fresh pipeline with the given admission budget, full for the
    /// second `now`.
    pub fn new(budget: u64, now: u64) -> (g: Gateway)
        ensures
            g.bucket == (TokenBucket { budget, tokens: budget, window: now }),
            g.metrics == Metrics::zero(),
            g.trace == (TraceLog { opened: 0, closed: 0 }),
    {
        Gateway {
            bucket: TokenBucket::new(budget, now),
            metrics: Metrics::new(),
            trace: TraceLog { opened: 0, closed: 0 },
        }
    }

    /// Opens the span, takes the admission decision and routes the request.
    /// The span is opened whether or not the request is admitted; a rejected
    /// request is answered 429 on the spot, counted under the rejection
    /// counter, its span closed, and no route is handed out for it.
    pub fn begin(&mut self, now: u64, method: Method, path: &str) -> (a: AdmissionOutcome)
        ensures
            final(self).bucket == spec_step(old(self).bucket, now),
            final(self).trace.opened == incr(old(self).trace.opened),
            spec_admits(old(self).bucket, now) ==> {
                &&& a == AdmissionOutcome::Admitted(spec_dispatch(method, path.spec_bytes()))
                &&& final(self).metrics == old(self).metrics
                &&& final(self).trace.closed == old(self).trace.closed
            },
            !spec_admits(old(self).bucket, now) ==> {
                &&& a == AdmissionOutcome::Rejected(
                    (Response { status: 429, body: Body::Empty }),
                )
                &&& final(self).metrics == (Metrics {
                    rejected_total: incr(old(self).metrics.rejected_total),
                    ..old(self).metrics
                })
                &&& final(self).trace.closed == incr(old(self).trace.closed)
            },
    {
        self.trace.opened = bump(self.trace.opened);
        let admitted = self.bucket.allow(now);
        if admitted {
            AdmissionOutcome::Admitted(dispatch(method, path))
        } else {
            self.metrics.rejected_total = bump(self.metrics.rejected_total);
            self.trace.closed = bump(self.trace.closed);
            AdmissionOutcome::Rejected(Response { status: 429, body: Body::Empty })
        }
    }

    /// Answers an admitted health request: always 200 and healthy.
    pub fn finish_health(&mut self) -> (r: Response)
        ensures
            r.status == 200,
            r.body is Health,
            final(self).bucket == old(self).bucket,
            final(self).metrics == (Metrics {
                health_ok: incr(old(self).metrics.health_ok),
                ..old(self).metrics
            }),
            final(self).trace.opened == old(self).trace.opened,
            final(self).trace.closed == incr(old(self).trace.closed),
    {
        self.metrics.health_ok = bump(self.metrics.health_ok);
        self.trace.closed = bump(self.trace.closed);
        Response { status: 200, body: Body::Health }
    }

    /// Answers an admitted list request from what the store returned. A
    /// store failure becomes a 500 carrying only the opaque token — never a
    /// partial or empty 200. A successful read returns every row handed
    /// over, newest first as the store ordered them, capped at
    /// `LIST_LIMIT`, each with its risk fields recomputed from the name.
    pub fn finish_list(&mut self, rows: Result<Vec<ItemRow>, StoreError>) -> (r: Response)
        ensures
            final(self).bucket == old(self).bucket,
            final(self).trace.opened == old(self).trace.opened,
            final(self).trace.closed == incr(old(self).trace.closed),
            rows is Err ==> {
                &&& r.status == 500
                &&& r.body is Error
                &&& final(self).metrics == (Metrics {
                    list_err: incr(old(self).metrics.list_err),
                    ..old(self).metrics
                })
            },
            rows matches Ok(rs) ==> {
                &&& r.status == 200
                &&& final(self).metrics == (Metrics {
                    list_ok: incr(old(self).metrics.list_ok),
                    ..old(self).metrics
                })
                &&& r.body matches Body::Items(items) && {
                    &&& items@.len() == if rs@.len() <= LIST_LIMIT {
                        rs@.len() as int
                    } else {
                        LIST_LIMIT as int
                    }
                    &&& forall|i: int|
                        0 <= i < items@.len() ==> item_matches_row(#[trigger] items@[i], rs@[i])
                }
            },
    {
        self.trace.closed = bump(self.trace.closed);
        match rows {
            Ok(rs) => {
                let items = list_items(&rs);
                self.metrics.list_ok = bump(self.metrics.list_ok);
                Response { status: 200, body: Body::Items(items) }
            },
            Err(_) => {
                self.metrics.list_err = bump(self.metrics.list_err);
                Response { status: 500, body: Body::Error }
            },
        }
    }

    /// Answers an admitted create request once the insert of `(id, name)`
    /// came back. On success the full item, derived fields included, goes
    /// out; on failure the response is a 500 carrying only the opaque
    /// token, and the generated id is dropped here, never reused nor
    /// returned.
    pub fn finish_create(&mut self, item: Item, inserted: Result<(), StoreError>) -> (r: Response)
        ensures
            final(self).bucket == old(self).bucket,
            final(self).trace.opened == old(self).trace.opened,
            final(self).trace.closed == incr(old(self).trace.closed),
            inserted is Ok ==> {
                &&& r.status == 200
                &&& r.body == Body::Created(item)
                &&& final(self).metrics == (Metrics {
                    create_ok: incr(old(self).metrics.create_ok),
                    ..old(self).metrics
                })
            },
            inserted is Err ==> {
                &&& r.status == 500
                &&& r.body is Error
                &&& final(self).metrics == (Metrics {
                    create_err: incr(old(self).metrics.create_err),
                    ..old(self).metrics
                })
            },
    {
        self.trace.closed = bump(self.trace.closed);
        match inserted {
            Ok(()) => {
                self.metrics.create_ok = bump(self.metrics.create_ok);
                Response { status: 200, body: Body::Created(item) }
            },
            Err(_) => {
                self.metrics.create_err = bump(self.metrics.create_err);
                Response { status: 500, body: Body::Error }
            },
        }
    }

    /// Answers an admitted metrics request with a snapshot of the counters
    /// as they stood before this request; serving the snapshot is itself
    /// counted afterwards.
    pub fn finish_metrics(&mut self) -> (r: Response)
        ensures
            r.status == 200,
            r.body == Body::MetricsSnapshot(old(self).metrics),
            final(self).bucket == old(self).bucket,
            final(self).metrics == (Metrics {
                metrics_ok: incr(old(self).metrics.metrics_ok),
                ..old(self).metrics
            }),
            final(self).trace.opened == old(self).trace.opened,
            final(self).trace.closed == incr(old(self).trace.closed),
    {
        let snapshot = self.metrics;
        self.metrics.metrics_ok = bump(self.metrics.metrics_ok);
        self.trace.closed = bump(self.trace.closed);
        Response { status: 200, body: Body::MetricsSnapshot(snapshot) }
    }

    /// Answers an admitted request that matched no route: 404, still
    /// observed by metrics and tracing.
    pub fn finish_not_found(&mut self) -> (r: Response)
        ensures
            r.status == 404,
            r.body is Empty,
            final(self).bucket == old(self).bucket,
            final(self).metrics == (Metrics {
                not_found: incr(old(self).metrics.not_found),
                ..old(self).metrics
            }),
            final(self).trace.opened == old(self).trace.opened,
            final(self).trace.closed == incr(old(self).trace.closed),
    {
        self.metrics.not_found = bump(self.metrics.not_found);
        self.trace.closed = bump(self.trace.closed);
        Response { status: 404, body: Body::Empty }
    }
}

} // verus!
