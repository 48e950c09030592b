use risk_items::admission::TokenBucket;
use risk_items::classify::RiskLevel;
use risk_items::health::check;
use risk_items::item::{create_item, list_items, Item, ItemRow, NewItem};
use risk_items::pipeline::{
    opaque_error_token, AdmissionOutcome, Body, Gateway, Response, StoreError,
};
use risk_items::router::{dispatch, Method, Route};

fn canonical_id(id: &str) -> bool {
    id.len() == 36
        && id.chars().enumerate().all(|(i, c)| {
            if i == 8 || i == 13 || i == 18 || i == 23 {
                c == '-'
            } else {
                c.is_ascii_hexdigit() && !c.is_ascii_uppercase()
            }
        })
}

#[test]
fn health_is_always_ok() {
    assert!(check().ok);
}

#[test]
fn route_table_exact_match() {
    assert_eq!(dispatch(Method::Get, "/health"), Route::Health);
    assert_eq!(dispatch(Method::Get, "/v1/items"), Route::ListItems);
    assert_eq!(dispatch(Method::Post, "/v1/items"), Route::CreateItem);
    assert_eq!(dispatch(Method::Get, "/metrics"), Route::MetricsView);
    assert_eq!(dispatch(Method::Post, "/health"), Route::NotFound);
    assert_eq!(dispatch(Method::Get, "/v1/items/"), Route::NotFound);
    assert_eq!(dispatch(Method::Get, "/nope"), Route::NotFound);
}

#[test]
fn created_item_carries_derived_fields_and_fresh_id() {
    let item = create_item(String::from("flagged-transfer"));
    assert_eq!(item.name, "flagged-transfer");
    assert_eq!(item.risk_score, 70);
    assert_eq!(item.risk_level, RiskLevel::Medium);
    assert!(canonical_id(&item.id));
}

#[test]
fn concurrent_style_creates_get_distinct_ids() {
    let a = create_item(String::from("same-name"));
    let b = create_item(String::from("same-name"));
    assert_eq!(a.name, b.name);
    assert!(canonical_id(&a.id));
    assert!(canonical_id(&b.id));
    assert_ne!(a.id, b.id);
}

#[test]
fn round_trip_created_item_lists_with_same_fields() {
    let created = create_item(String::from("flagged-transfer"));
    let row = ItemRow { id: created.id.clone(), name: created.name.clone() };
    let mut gw = Gateway::new(10, 0);
    match gw.begin(0, Method::Get, "/v1/items") {
        AdmissionOutcome::Admitted(Route::ListItems) => {},
        _ => panic!("expected the list route"),
    }
    let r = gw.finish_list(Ok(vec![row]));
    assert_eq!(r.status, 200);
    match r.body {
        Body::Items(items) => {
            assert_eq!(items.len(), 1);
            assert_eq!(items[0].id, created.id);
            assert_eq!(items[0].name, "flagged-transfer");
            assert_eq!(items[0].risk_score, 70);
            assert_eq!(items[0].risk_level, RiskLevel::Medium);
            assert_eq!(items[0].risk_level.name(), "MEDIUM");
        },
        _ => panic!("expected an item list"),
    }
}

#[test]
fn list_caps_at_one_hundred_and_keeps_store_order() {
    let mut rows = Vec::new();
    for i in 0..150 {
        rows.push(ItemRow { id: format!("id-{i}"), name: format!("name-{i}") });
    }
    let items = list_items(&rows);
    assert_eq!(items.len(), 100);
    for (i, item) in items.iter().enumerate() {
        assert_eq!(item.name, format!("name-{i}"));
        assert_eq!(item.id, format!("id-{i}"));
    }
    let mut boundary_rows = Vec::new();
    for i in 0..101 {
        boundary_rows.push(ItemRow { id: format!("id-{i}"), name: format!("name-{i}") });
    }
    assert_eq!(list_items(&boundary_rows).len(), 100);
    boundary_rows.pop();
    assert_eq!(list_items(&boundary_rows).len(), 100);

    let mut short_rows = Vec::new();
    for i in 0..3 {
        short_rows.push(ItemRow { id: format!("id-{i}"), name: format!("name-{i}") });
    }
    let few = list_items(&short_rows);
    assert_eq!(few.len(), 3);
}

#[test]
fn store_failure_on_list_is_opaque_500() {
    let mut gw = Gateway::new(10, 0);
    gw.begin(0, Method::Get, "/v1/items");
    let r = gw.finish_list(Err(StoreError::QueryFailed));
    assert_eq!(r.status, 500);
    assert!(matches!(r.body, Body::Error));
    assert_eq!(gw.metrics.list_err, 1);
    assert_eq!(gw.metrics.list_ok, 0);
    assert_eq!(opaque_error_token(), "db_error");

    let mut gw = Gateway::new(10, 0);
    gw.begin(0, Method::Get, "/v1/items");
    let r = gw.finish_list(Err(StoreError::Unavailable));
    assert_eq!(r.status, 500);
    assert!(matches!(r.body, Body::Error));
}

#[test]
fn create_failure_withholds_the_id() {
    let mut gw = Gateway::new(10, 0);
    gw.begin(0, Method::Post, "/v1/items");
    let item = create_item(String::from("anything"));
    let r = gw.finish_create(item, Err(StoreError::Unavailable));
    assert_eq!(r.status, 500);
    assert!(matches!(r.body, Body::Error));
    assert_eq!(gw.metrics.create_err, 1);
}

#[test]
fn create_success_returns_the_item() {
    let mut gw = Gateway::new(10, 0);
    gw.begin(0, Method::Post, "/v1/items");
    let item = create_item(String::from("scam-report"));
    let id = item.id.clone();
    let r = gw.finish_create(item, Ok(()));
    assert_eq!(r.status, 200);
    match r.body {
        Body::Created(it) => {
            assert_eq!(it.id, id);
            assert_eq!(it.risk_score, 90);
            assert_eq!(it.risk_level, RiskLevel::High);
        },
        _ => panic!("expected the created item"),
    }
    assert_eq!(gw.metrics.create_ok, 1);
}

#[test]
fn bucket_admits_within_budget_only() {
    let mut b = TokenBucket::new(1, 5);
    assert!(b.allow(5));
    assert!(!b.allow(5));
    assert!(b.allow(6));
    assert!(!b.allow(6));

    let mut b = TokenBucket::new(3, 0);
    assert!(b.allow(0));
    assert!(b.allow(0));
    assert!(b.allow(0));
    assert!(!b.allow(0));
}

#[test]
fn exhausted_budget_rejects_before_routing() {
    let mut gw = Gateway::new(1, 7);
    let first = gw.begin(7, Method::Get, "/v1/items");
    assert!(matches!(first, AdmissionOutcome::Admitted(Route::ListItems)));
    gw.finish_list(Ok(Vec::new()));

    let second = gw.begin(7, Method::Post, "/v1/items");
    match second {
        AdmissionOutcome::Rejected(Response { status, body }) => {
            assert_eq!(status, 429);
            assert!(matches!(body, Body::Empty));
        },
        AdmissionOutcome::Admitted(_) => panic!("second request must be rejected"),
    }
    // The rejected request was still traced, and counted apart from routes.
    assert_eq!(gw.trace.opened, 2);
    assert_eq!(gw.trace.closed, 2);
    assert_eq!(gw.metrics.rejected_total, 1);
    assert_eq!(gw.metrics.list_ok, 1);
    assert_eq!(gw.metrics.create_ok, 0);
    assert_eq!(gw.metrics.create_err, 0);
}

#[test]
fn metrics_snapshot_reports_counters_before_the_request() {
    let mut gw = Gateway::new(10, 0);
    gw.begin(0, Method::Get, "/health");
    gw.finish_health();
    gw.begin(0, Method::Get, "/metrics");
    let r = gw.finish_metrics();
    assert_eq!(r.status, 200);
    match r.body {
        Body::MetricsSnapshot(m) => {
            assert_eq!(m.health_ok, 1);
            assert_eq!(m.metrics_ok, 0);
        },
        _ => panic!("expected a metrics snapshot"),
    }
    assert_eq!(gw.metrics.metrics_ok, 1);
}

#[test]
fn unmatched_routes_are_observed() {
    let mut gw = Gateway::new(10, 0);
    match gw.begin(0, Method::Get, "/nowhere") {
        AdmissionOutcome::Admitted(Route::NotFound) => {},
        _ => panic!("expected a not-found dispatch"),
    }
    let r = gw.finish_not_found();
    assert_eq!(r.status, 404);
    assert_eq!(gw.metrics.not_found, 1);
    assert_eq!(gw.trace.opened, 1);
    assert_eq!(gw.trace.closed, 1);
}

#[test]
fn new_item_carries_the_client_name() {
    let body = NewItem { name: String::from("ledger") };
    let item: Item = create_item(body.name);
    assert_eq!(item.name, "ledger");
    assert_eq!(item.risk_score, 30);
}
