//! Per-project configuration cache with staleness-aware refresh coordination
//! and layered admission control.
//!
//! The library keeps one cached snapshot of a project's remote configuration
//! per project, classifies it as up to date, soft-outdated or hard-outdated on
//! a deterministic per-project time grid, collapses concurrent refresh
//! requests into a single outstanding fetch, and checks incoming request
//! batches against origin allow-lists, key status, and quota/rate-limit state.

mod clock;

pub mod config;
pub mod envelope;
pub mod origin;
pub mod project;
pub mod quotas;
pub mod scoping;
pub mod staleness;
pub mod state;
