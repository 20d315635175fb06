//! The purge scheduler, as far as this crate holds it: its settings.

pub mod config;
