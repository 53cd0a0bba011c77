//! A Discord guild metrics exporter: the synchronizer that keeps label-keyed
//! gauges and counters in step with a guild's state.
//!
//! [`discord::Handler`] takes one gateway event at a time
//! ([`events::Event`], through `handle` or one method per event) and returns
//! the registry actions that it calls for; the caller applies them to the
//! metric families. `metrics` models what a registry holds after a run of
//! actions, and `laws` proves what holds of the synchronizer over it.

pub mod model;
pub mod metrics;
pub mod topology;
pub mod cache;
pub mod discord;
pub mod events;
pub mod laws;
pub mod settings;
