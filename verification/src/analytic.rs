//! The click-analytics service: decoding, country resolution, counting and
//! the per-message flow that ties them together.

pub mod clicks;
pub mod clicks_model;
pub mod config;
pub mod constants;
pub mod event;
pub mod geo;
pub mod geo_model;
pub mod pipeline;
pub mod pipeline_model;
