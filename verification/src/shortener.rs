//! The redirect server, as far as this crate holds it: its settings.

pub mod config;
