//! Snapshots of Delta tables: version checksum state, the snapshot builder, snapshot hints as a C
//! caller supplies them, and counters of allocated bytes.

pub mod actions;
pub mod alloc_stats;
pub mod crc;
pub mod data;
pub mod error;
pub mod ffi;
pub mod last_checkpoint;
pub mod log_files;
pub mod snapshot;
pub mod string_map;
pub mod text;
pub mod values;
