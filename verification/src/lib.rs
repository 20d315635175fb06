//! Click-analytics ingestion for a link shortener.
//!
//! The crate holds the decisions of the pipeline: how a queue payload becomes
//! a click event, how a country is resolved through a cache and a rate-limited
//! geolocation service, how the counters of a link change, and how one message
//! is carried through these steps. Every suspension point (queue, cache, HTTP,
//! database, timer) is performed by the caller, which feeds the outcome back.

pub mod analytic;
pub mod purger;
pub mod settings;
pub mod shortener;
pub mod text;
