//! Per-tab navigation state for an interactive file browser.
//!
//! A tab knows where the user is, where they were just before, which
//! directory listings have already been loaded, and per-path preview
//! metadata. The core performs no filesystem access: every query is an
//! in-memory lookup, and a listing that was never loaded is reported as
//! absent, not as an error.

pub mod fs;
pub mod history;
pub mod path;
pub mod tab;
