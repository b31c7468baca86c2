//! Core of a newsletter-publishing service: an idempotent-request cache and a
//! durable fan-out delivery queue, with the worker protocol that drains it.
//!
//! The storage tables are modelled as verified in-memory structures; the
//! surrounding binary performs the actual database and network calls and feeds
//! their results to the verified decision functions.

pub mod authentication;
pub mod domain;
pub mod idempotency;
pub mod issues;
pub mod publish;
pub mod queue;
pub mod report;
pub mod response;
pub mod routes;
pub mod subscriptions;
pub mod utils;
pub mod worker;
