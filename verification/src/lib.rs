//! Lifecycle registry for shared, expensive-to-build document handles.
//!
//! A document lives in at most one of two places: the active registry, where
//! callers find its live handle, or the eviction staging area, where a closed
//! handle stays warm until its grace period runs out. The registry decides;
//! storage, the remote backend and the content model are driven by the caller,
//! which reports what they answered.

pub mod awareness;
pub mod content;
pub mod error;
pub mod factory;
pub mod handle;
pub mod handle_map;
pub mod lifecycle;
pub mod manager;
pub mod services;
pub mod snapshot;
pub mod theorems;
