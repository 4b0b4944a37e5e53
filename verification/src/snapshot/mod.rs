//! Snapshots of a table at one version.

pub mod builder;
pub mod catalog;
pub mod engine;
pub mod guarantees;
pub mod hint;
pub mod replay;
pub mod table_url;
pub mod types;
