//! Core of a static-site builder: content indexing, per-document rendering,
//! stale-output reconciliation and the build state machine.

pub mod text;
pub mod index;
pub mod reconcile;
pub mod frontmatter;
pub mod config;
pub mod engine;
pub mod render;
pub mod coordinator;
pub mod scripts;
pub mod report;
