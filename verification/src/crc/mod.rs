//! Version checksum (CRC) state.

pub mod agreement;
pub mod checksum;
pub mod deleted_records;
pub mod file_order;
pub mod file_size_histogram;
pub mod file_stats;
pub mod persistence;
pub mod raw;
pub mod reasons;
pub mod state;
pub mod sums;
