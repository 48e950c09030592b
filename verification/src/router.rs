//! Route dispatch: exact matching of method and path onto a handler.
//!
//! Matching is byte-exact on the request path; anything unmatched is routed
//! to the not-found outcome, which the tracing and metrics layers still
//! observe.

use vstd::prelude::*;
use vstd::string::StringSliceAdditionalSpecFns;

verus! {

/// The request method, as far as the route table distinguishes it.
#[derive(Clone, Copy, Debug, PartialEq, Eq, Structural)]
pub enum Method {
    Get,
    Post,
    /// Any other method: the route table matches none of them.
    Other,
}

/// The handler a request is dispatched to.
#[derive(Clone, Copy, Debug, PartialEq, Eq, Structural)]
pub enum Route {
    Health,
    ListItems,
    CreateItem,
    MetricsView,
    NotFound,
}

/// The bytes of `"/health"`.
pub open spec fn path_health() -> Seq<u8> {
    seq![47u8, 104u8, 101u8, 97u8, 108u8, 116u8, 104u8]
}

/// The bytes of `"/v1/items"`.
pub open spec fn path_items() -> Seq<u8> {
    seq![47u8, 118u8, 49u8, 47u8, 105u8, 116u8, 101u8, 109u8, 115u8]
}

/// The bytes of `"/metrics"`.
pub open spec fn path_metrics() -> Seq<u8> {
    seq![47u8, 109u8, 101u8, 116u8, 114u8, 105u8, 99u8, 115u8]
}

/// The route table: exact match on method and path bytes, everything else
/// not found.
pub open spec fn spec_dispatch(m: Method, path: Seq<u8>) -> Route {
    if m == Method::Get && path == path_health() {
        Route::Health
    } else if m == Method::Get && path == path_items() {
        Route::ListItems
    } else if m == Method::Post && path == path_items() {
        Route::CreateItem
    } else if m == Method::Get && path == path_metrics() {
        Route::MetricsView
    } else {
        Route::NotFound
    }
}

/// Byte-wise equality of two slices.
fn bytes_eq(a: &[u8], b: &[u8]) -> (r: bool)
    ensures
        r == (a@ == b@),
{
    if a.len() != b.len() {
        return false;
    }
    let n = a.len();
    let mut i: usize = 0;
    while i < n
        invariant
            n == a@.len(),
            a@.len() == b@.len(),
            i <= n,
            forall|k: int| 0 <= k < i ==> a@[k] == b@[k],
        decreases n - i,
    {
        if a[i] != b[i] {
            return false;
        }
        i += 1;
    }
    proof {
        assert(a@ =~= b@);
    }
    true
}

/// Builds the bytes of `"/health"`.
fn path_health_bytes() -> (v: Vec<u8>)
    ensures
        v@ == path_health(),
{
    let v = vec![47u8, 104u8, 101u8, 97u8, 108u8, 116u8, 104u8];
    proof {
        assert(v@ =~= path_health());
    }
    v
}

/// Builds the bytes of `"/v1/items"`.
fn path_items_bytes() -> (v: Vec<u8>)
    ensures
        v@ == path_items(),
{
    let v = vec![47u8, 118u8, 49u8, 47u8, 105u8, 116u8, 101u8, 109u8, 115u8];
    proof {
        assert(v@ =~= path_items());
    }
    v
}

/// Builds the bytes of `"/metrics"`.
fn path_metrics_bytes() -> (v: Vec<u8>)
    ensures
        v@ == path_metrics(),
{
    let v = vec![47u8, 109u8, 101u8, 116u8, 114u8, 105u8, 99u8, 115u8];
    proof {
        assert(v@ =~= path_metrics());
    }
    v
}

/// Dispatches a request to its handler by exact match on method and path.
pub fn dispatch(m: Method, path: &str) -> (r: Route)
    ensures
        r == spec_dispatch(m, path.spec_bytes()),
{
    let bytes: &[u8] = path.as_bytes();
    match m {
        Method::Get => {
            if bytes_eq(bytes, path_health_bytes().as_slice()) {
                Route::Health
            } else if bytes_eq(bytes, path_items_bytes().as_slice()) {
                Route::ListItems
            } else if bytes_eq(bytes, path_metrics_bytes().as_slice()) {
                Route::MetricsView
            } else {
                Route::NotFound
            }
        },
        Method::Post => {
            if bytes_eq(bytes, path_items_bytes().as_slice()) {
                Route::CreateItem
            } else {
                Route::NotFound
            }
        },
        Method::Other => Route::NotFound,
    }
}

} // verus!
