//! What a snapshot build leaves to its host.

use std::sync::Arc;

use vstd::prelude::*;

use crate::actions::{DeletionVectorDescriptor, Metadata, Protocol};
use crate::crc::checksum::Crc;
use crate::error::Error;
use crate::last_checkpoint::LastCheckpointHint;
use crate::log_files::{LogPath, LogSegment, LogSegmentFiles, ParsedLogPath};
use crate::snapshot::replay::IncrementalReplay;
use crate::snapshot::types::{Snapshot, SnapshotLoadMetricContext, SnapshotRef, TableConfiguration};

verus! {

/// The rules of the table format that lie outside a snapshot build. None of them reads storage,
/// and nothing is assumed of what they answer.
pub trait TableFormat {
    /// The URL of the table at a path or URL.
    fn parse_table_root(&self, table_root: &String) -> Result<String, Error>;

    /// Checks that the version and the kind of every file are those that its location tells.
    fn validate_log_path_fields(&self, files: &LogSegmentFiles) -> Result<(), Error>;

    /// The log segment of these files.
    fn log_segment(
        &self,
        files: LogSegmentFiles,
        log_root: String,
        end_version: Option<u64>,
        last_checkpoint: Option<LastCheckpointHint>,
    ) -> Result<LogSegment, Error>;

    /// Checks that a table can have this metadata and protocol, and tells whether a catalog
    /// manages it.
    fn catalog_managed(
        &self,
        metadata: &Metadata,
        protocol: &Protocol,
        table_root: &String,
        version: u64,
    ) -> Result<bool, Error>;

    /// Checks that these parts make up a snapshot.
    fn check_snapshot(
        &self,
        log_segment: &LogSegment,
        table_configuration: &TableConfiguration,
        crc: &Option<Arc<Crc>>,
    ) -> Result<(), Error>;

    /// Checks that a table can have this protocol.
    fn check_protocol(&self, protocol: &Protocol) -> Result<(), Error>;

    /// Checks that a data file can have this deletion vector.
    fn check_deletion_vector(&self, deletion_vector: &DeletionVectorDescriptor) -> Result<
        (),
        Error,
    >;

    /// Checks the contents of a `_last_checkpoint` file.
    fn check_last_checkpoint(&self, hint: &LastCheckpointHint) -> Result<(), Error>;

    /// The log files of a snapshot at `version`, sorted by kind.
    fn sort_log_paths(&self, version: u64, paths: Vec<LogPath>) -> Result<LogSegmentFiles, Error>;
}

/// A table format with storage to read tables from.
pub trait Engine: TableFormat {
    /// Tells whether a load was cancelled.
    type Token;

    /// Lists the log up to `end_version`, or to its end, with `log_tail` as its last commits.
    fn list_log_segment(
        &self,
        log_root: &String,
        log_tail: Vec<ParsedLogPath>,
        end_version: Option<u64>,
        context: &SnapshotLoadMetricContext,
        token: &Option<Self::Token>,
    ) -> Result<LogSegment, Error>;

    /// Reads the snapshot that a log segment makes up.
    fn load_snapshot(
        &self,
        table_root: String,
        log_segment: LogSegment,
        context: &SnapshotLoadMetricContext,
        replay: IncrementalReplay,
        built_as_latest: bool,
    ) -> Result<Snapshot, Error>;

    /// Brings an existing snapshot to `version`, or to the latest one.
    fn update_snapshot(
        &self,
        existing: SnapshotRef,
        log_tail: Vec<ParsedLogPath>,
        version: Option<u64>,
        context: &SnapshotLoadMetricContext,
        replay: IncrementalReplay,
        built_as_latest: bool,
        token: &Option<Self::Token>,
    ) -> Result<SnapshotRef, Error>;
}

} // verus!
