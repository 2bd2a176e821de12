//! On-disk lifecycle of a search index's persistent state.
//!
//! An index's identity (name, owning database, storage root) deterministically
//! names its storage tree. This crate computes those paths, decides every step
//! of metadata persistence and of lock-aware teardown, and classifies every
//! operating-system outcome; an unverified shell performs the actual
//! filesystem calls and feeds their outcomes back in as events.

pub mod digits;
pub mod directory;
pub mod errors;
pub mod metadata;
pub mod remove;
