//! What a snapshot is made of.

use std::sync::Arc;

use vstd::prelude::*;

use crate::actions::{Metadata, MetadataView, Protocol, ProtocolView};
use crate::crc::checksum::{Crc, CrcView};
use crate::data::Data;
use crate::last_checkpoint::{LastCheckpointHint, LastCheckpointHintView};
use crate::log_files::{LogSegment, LogSegmentFiles, LogSegmentFilesView, LogSegmentView};

verus! {

/// The metadata and protocol of a table at one version.
#[derive(Debug)]
pub struct TableConfiguration {
    /// The table metadata.
    pub metadata: Metadata,
    /// The table protocol.
    pub protocol: Protocol,
    /// The URL of the table.
    pub table_root: String,
    /// The version.
    pub version: u64,
    /// Whether a catalog is the source of truth for the commits of the table.
    pub catalog_managed: bool,
}

/// The mathematical value of [`TableConfiguration`].
#[verifier::ext_equal]
pub struct TableConfigurationView {
    pub metadata: MetadataView,
    pub protocol: ProtocolView,
    pub table_root: Seq<char>,
    pub version: u64,
    pub catalog_managed: bool,
}

impl DeepView for TableConfiguration {
    type V = TableConfigurationView;

    open spec fn deep_view(&self) -> TableConfigurationView {
        TableConfigurationView {
            metadata: self.metadata.deep_view(),
            protocol: self.protocol.deep_view(),
            table_root: self.table_root.deep_view(),
            version: self.version,
            catalog_managed: self.catalog_managed,
        }
    }
}

impl Data for TableConfiguration {
    fn dup(&self) -> (res: Self) {
        TableConfiguration {
            metadata: self.metadata.dup(),
            protocol: self.protocol.dup(),
            table_root: self.table_root.dup(),
            version: self.version,
            catalog_managed: self.catalog_managed,
        }
    }

    fn same(&self, other: &Self) -> (res: bool) {
        self.metadata.same(&other.metadata)
            && self.protocol.same(&other.protocol)
            && self.table_root.same(&other.table_root)
            && self.version == other.version
            && self.catalog_managed == other.catalog_managed
    }
}

/// A table at one version.
#[derive(Debug)]
pub struct Snapshot {
    /// The part of the log that makes up the version.
    pub log_segment: LogSegment,
    /// The metadata and protocol at the version.
    pub table_configuration: TableConfiguration,
    /// The checksum state, where it was resolved for the version.
    pub crc: Option<Arc<Crc>>,
    /// Whether the version was the latest when the snapshot was built.
    pub built_as_latest: bool,
}

/// The mathematical value of [`Snapshot`].
#[verifier::ext_equal]
pub struct SnapshotView {
    pub log_segment: LogSegmentView,
    pub table_configuration: TableConfigurationView,
    pub crc: Option<CrcView>,
    pub built_as_latest: bool,
}

impl DeepView for Snapshot {
    type V = SnapshotView;

    open spec fn deep_view(&self) -> SnapshotView {
        SnapshotView {
            log_segment: self.log_segment.deep_view(),
            table_configuration: self.table_configuration.deep_view(),
            crc: self.crc.deep_view(),
            built_as_latest: self.built_as_latest,
        }
    }
}

impl Data for Snapshot {
    fn dup(&self) -> (res: Self) {
        Snapshot {
            log_segment: self.log_segment.dup(),
            table_configuration: self.table_configuration.dup(),
            crc: self.crc.dup(),
            built_as_latest: self.built_as_latest,
        }
    }

    fn same(&self, other: &Self) -> (res: bool) {
        self.log_segment.same(&other.log_segment)
            && self.table_configuration.same(&other.table_configuration)
            && self.crc.same(&other.crc)
            && self.built_as_latest == other.built_as_latest
    }
}

/// A shared snapshot.
pub type SnapshotRef = Arc<Snapshot>;

impl Snapshot {
    /// The version of the snapshot.
    pub fn version(&self) -> (res: u64)
        ensures
            res == self.deep_view().table_configuration.version,
    {
        self.table_configuration.version
    }

    /// Whether the version was the latest when the snapshot was built.
    pub fn is_built_as_latest(&self) -> (res: bool)
        ensures
            res == self.deep_view().built_as_latest,
    {
        self.built_as_latest
    }
}

/// What a connector claims of the version of a [`SnapshotHint`]. The claim is trusted.
#[derive(Debug, Clone, Copy, PartialEq, Eq, Structural)]
pub enum SnapshotHintVersionStatus {
    /// The connector did not establish that the version was the latest.
    Unverified,
    /// The connector established that the version was the latest.
    Latest,
}

/// Everything that a snapshot is made of, supplied by a connector so that no storage needs to be
/// read.
#[derive(Debug)]
pub struct SnapshotHint {
    /// The version that every part of the hint describes.
    pub version: u64,
    /// Every log file that the snapshot needs.
    pub log_segment_files: LogSegmentFiles,
    /// The table protocol.
    pub protocol: Protocol,
    /// The table metadata.
    pub metadata: Metadata,
    /// The contents of the `_last_checkpoint` file.
    pub last_checkpoint_hint: Option<LastCheckpointHint>,
    /// The checksum state at the version.
    pub crc: Option<Arc<Crc>>,
    /// Whether the version was the latest.
    pub version_status: SnapshotHintVersionStatus,
}

/// The mathematical value of [`SnapshotHint`].
#[verifier::ext_equal]
pub struct SnapshotHintView {
    pub version: u64,
    pub log_segment_files: LogSegmentFilesView,
    pub protocol: ProtocolView,
    pub metadata: MetadataView,
    pub last_checkpoint_hint: Option<LastCheckpointHintView>,
    pub crc: Option<CrcView>,
    pub version_status: SnapshotHintVersionStatus,
}

impl DeepView for SnapshotHint {
    type V = SnapshotHintView;

    open spec fn deep_view(&self) -> SnapshotHintView {
        SnapshotHintView {
            version: self.version,
            log_segment_files: self.log_segment_files.deep_view(),
            protocol: self.protocol.deep_view(),
            metadata: self.metadata.deep_view(),
            last_checkpoint_hint: self.last_checkpoint_hint.deep_view(),
            crc: self.crc.deep_view(),
            version_status: self.version_status,
        }
    }
}

impl Data for SnapshotHint {
    fn dup(&self) -> (res: Self) {
        SnapshotHint {
            version: self.version,
            log_segment_files: self.log_segment_files.dup(),
            protocol: self.protocol.dup(),
            metadata: self.metadata.dup(),
            last_checkpoint_hint: self.last_checkpoint_hint.dup(),
            crc: self.crc.dup(),
            version_status: self.version_status,
        }
    }

    fn same(&self, other: &Self) -> (res: bool) {
        self.version == other.version
            && self.log_segment_files.same(&other.log_segment_files)
            && self.protocol.same(&other.protocol)
            && self.metadata.same(&other.metadata)
            && self.last_checkpoint_hint.same(&other.last_checkpoint_hint)
            && self.crc.same(&other.crc)
            && self.version_status == other.version_status
    }
}

/// An identifier that ties the metric events of one operation together.
#[derive(Debug, Clone, Copy, PartialEq, Eq, Structural)]
pub struct MetricId {
    /// The identifier.
    pub id: u128,
}

/// How a snapshot is loaded.
#[derive(Debug, Clone, Copy, PartialEq, Eq, Structural)]
pub enum SnapshotLoadType {
    /// From state that a connector supplies.
    SnapshotHint,
    /// From a full listing of the log.
    Full,
    /// From an existing snapshot and the commits above it.
    Incremental,
}

/// What the metric events of a snapshot load carry.
#[derive(Debug)]
pub struct SnapshotLoadMetricContext {
    /// The identifier of the operation.
    pub operation_id: MetricId,
    /// Whether a load of a catalog-managed table was requested.
    pub is_catalog_managed: bool,
    /// The identifier that the caller supplied.
    pub correlation_id: Option<String>,
    /// How the snapshot is loaded.
    pub load_type: SnapshotLoadType,
}

/// The mathematical value of [`SnapshotLoadMetricContext`].
#[verifier::ext_equal]
pub struct SnapshotLoadMetricContextView {
    pub operation_id: MetricId,
    pub is_catalog_managed: bool,
    pub correlation_id: Option<Seq<char>>,
    pub load_type: SnapshotLoadType,
}

impl DeepView for SnapshotLoadMetricContext {
    type V = SnapshotLoadMetricContextView;

    open spec fn deep_view(&self) -> SnapshotLoadMetricContextView {
        SnapshotLoadMetricContextView {
            operation_id: self.operation_id,
            is_catalog_managed: self.is_catalog_managed,
            correlation_id: self.correlation_id.deep_view(),
            load_type: self.load_type,
        }
    }
}

impl Data for SnapshotLoadMetricContext {
    fn dup(&self) -> (res: Self) {
        SnapshotLoadMetricContext {
            operation_id: self.operation_id,
            is_catalog_managed: self.is_catalog_managed,
            correlation_id: self.correlation_id.dup(),
            load_type: self.load_type,
        }
    }

    fn same(&self, other: &Self) -> (res: bool) {
        self.operation_id == other.operation_id
            && self.is_catalog_managed == other.is_catalog_managed
            && self.correlation_id.same(&other.correlation_id)
            && self.load_type == other.load_type
    }
}

} // verus!
