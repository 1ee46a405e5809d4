//! Callbacks from upstream identity providers.
pub mod goog;
