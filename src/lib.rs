//! Keyword shortcuts: short user-chosen keywords that resolve to destination
//! URLs, with exact lookup, create, upsert, update, delete and typo-tolerant
//! search over a pluggable persistence port.
pub mod clock;
pub mod error;
pub mod shortcut;
pub mod text;
pub mod matching;
pub mod repository;
pub mod service;
pub mod laws;
pub mod views;
