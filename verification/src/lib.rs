//! Core data model and transform engine for pipeline task graphs.
//!
//! A pipeline is a set of named nodes, each combining one recognition step
//! and one action step plus transition metadata.  This crate provides the
//! JSON value model for the wire format, the override merge engine that
//! patches node definitions field by field, the next-list parser that
//! normalizes transition references, the typed node definition with its
//! decoder, and the task-scoped execution context that tracks overrides,
//! anchors and hit counters.

pub mod common;
pub mod context;
pub mod decode;
pub mod define;
pub mod error;
pub mod event_sink;
pub mod job;
pub mod json;
pub mod jsonio;
pub mod laws;
pub mod merge;
pub mod nextlist;
pub mod notification;
pub mod pipeline;
pub mod text;

pub use error::MaaError;
pub use error::MaaResult;
pub use json::JsonValue;
