//! Verified core of a small item-management HTTP service.
//!
//! The library holds the behavioural core: the risk classifier, the item
//! domain logic and persistence semantics, the route table, the admission
//! (rate-limit) policy, the metrics counters, and the per-request pipeline
//! that orders those cross-cutting concerns. Process bootstrap, the HTTP
//! stack and the relational store itself live outside, in `app/`, and talk
//! to this crate through plain values.

pub mod admission;
pub mod classify;
pub mod health;
pub mod ids;
pub mod item;
pub mod metrics;
pub mod pipeline;
pub mod router;
