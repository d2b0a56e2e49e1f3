//! State behind a résumé viewer's window: the geometry and theme that
//! outlive the process, the single slot that holds the detail overlay's
//! content, and what a résumé card shows of one position.
//!
//! Nothing here draws or touches the disk. The caller owns the event
//! loop: it hands events in and carries out what comes back.

pub mod app_config;
pub mod cv;
pub mod decimal;
pub mod geometry;
pub mod outside;
pub mod overlay;
pub mod store;
