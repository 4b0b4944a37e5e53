//! Values are equal exactly where their fields are: the mathematical value of a type leaves no field
//! out and adds none.

use vstd::prelude::*;

use crate::actions::{SetTransaction, DomainMetadata, DeletionVectorDescriptor, Add, Protocol, Metadata};
use crate::crc::checksum::Crc;
use crate::crc::deleted_records::DeletedRecordCountsHistogram;
use crate::crc::file_size_histogram::FileSizeHistogramRaw;
use crate::crc::file_stats::FileStats;
use crate::crc::raw::{CrcDeletionVectorRaw, CrcAddRaw, CrcRaw};
use crate::crc::state::{DomainMetadataState, FileStatsState, SetTransactionState};
use crate::last_checkpoint::HintAction;
use crate::last_checkpoint::{CheckpointMetadata, Sidecar, LastCheckpointV2, LastCheckpointHint};
use crate::log_files::{FileMeta, ParsedLogPath, LogPath, LogSegmentFiles, LogSegment};
use crate::snapshot::types::{TableConfiguration, Snapshot, SnapshotHint, SnapshotLoadMetricContext};

verus! {

/// Two values of [`SetTransaction`] are equal exactly where every field is.
pub proof fn law_set_transaction_value(a: SetTransaction, b: SetTransaction)
    ensures
        a.deep_view() == b.deep_view() <==> {
            &&& a.app_id@ == b.app_id@
            &&& a.version == b.version
            &&& a.last_updated == b.last_updated
        },
{
}

/// Two values of [`DomainMetadata`] are equal exactly where every field is.
pub proof fn law_domain_metadata_value(a: DomainMetadata, b: DomainMetadata)
    ensures
        a.deep_view() == b.deep_view() <==> {
            &&& a.domain@ == b.domain@
            &&& a.configuration@ == b.configuration@
            &&& a.removed == b.removed
        },
{
}

/// Two values of [`DeletionVectorDescriptor`] are equal exactly where every field is.
pub proof fn law_deletion_vector_descriptor_value(a: DeletionVectorDescriptor, b: DeletionVectorDescriptor)
    ensures
        a.deep_view() == b.deep_view() <==> {
            &&& a.storage_type == b.storage_type
            &&& a.path_or_inline_dv@ == b.path_or_inline_dv@
            &&& a.offset == b.offset
            &&& a.size_in_bytes == b.size_in_bytes
            &&& a.cardinality == b.cardinality
        },
{
}

/// Two values of [`Add`] are equal exactly where every field is.
pub proof fn law_add_value(a: Add, b: Add)
    ensures
        a.deep_view() == b.deep_view() <==> {
            &&& a.path@ == b.path@
            &&& a.partition_values.deep_view() == b.partition_values.deep_view()
            &&& a.size == b.size
            &&& a.modification_time == b.modification_time
            &&& a.data_change == b.data_change
            &&& a.stats.deep_view() == b.stats.deep_view()
            &&& a.tags.deep_view() == b.tags.deep_view()
            &&& a.deletion_vector.deep_view() == b.deletion_vector.deep_view()
            &&& a.base_row_id == b.base_row_id
            &&& a.default_row_commit_version == b.default_row_commit_version
            &&& a.clustering_provider.deep_view() == b.clustering_provider.deep_view()
        },
{
}

/// Two values of [`Protocol`] are equal exactly where every field is.
pub proof fn law_protocol_value(a: Protocol, b: Protocol)
    ensures
        a.deep_view() == b.deep_view() <==> {
            &&& a.min_reader_version == b.min_reader_version
            &&& a.min_writer_version == b.min_writer_version
            &&& a.reader_features.deep_view() == b.reader_features.deep_view()
            &&& a.writer_features.deep_view() == b.writer_features.deep_view()
        },
{
}

/// Two values of [`Metadata`] are equal exactly where every field is.
pub proof fn law_metadata_value(a: Metadata, b: Metadata)
    ensures
        a.deep_view() == b.deep_view() <==> {
            &&& a.id@ == b.id@
            &&& a.name.deep_view() == b.name.deep_view()
            &&& a.description.deep_view() == b.description.deep_view()
            &&& a.format_provider@ == b.format_provider@
            &&& a.format_options.deep_view() == b.format_options.deep_view()
            &&& a.schema_string@ == b.schema_string@
            &&& a.partition_columns.deep_view() == b.partition_columns.deep_view()
            &&& a.created_time == b.created_time
            &&& a.configuration.deep_view() == b.configuration.deep_view()
        },
{
}

/// Two values of [`FileStats`] are equal exactly where every field is.
pub proof fn law_file_stats_value(a: FileStats, b: FileStats)
    ensures
        a.deep_view() == b.deep_view() <==> {
            &&& a.num_files == b.num_files
            &&& a.table_size_bytes == b.table_size_bytes
            &&& a.file_size_histogram.deep_view() == b.file_size_histogram.deep_view()
        },
{
}

/// Two values of [`FileSizeHistogramRaw`] are equal exactly where every field is.
pub proof fn law_file_size_histogram_raw_value(a: FileSizeHistogramRaw, b: FileSizeHistogramRaw)
    ensures
        a.deep_view() == b.deep_view() <==> {
            &&& a.sorted_bin_boundaries@ == b.sorted_bin_boundaries@
            &&& a.file_counts@ == b.file_counts@
            &&& a.total_bytes@ == b.total_bytes@
        },
{
}

/// Two values of [`DeletedRecordCountsHistogram`] are equal exactly where every field is.
pub proof fn law_deleted_record_counts_histogram_value(a: DeletedRecordCountsHistogram, b: DeletedRecordCountsHistogram)
    ensures
        a.deep_view() == b.deep_view() <==> {
            &&& a.deleted_record_counts@ == b.deleted_record_counts@
        },
{
}

/// Two values of [`Crc`] are equal exactly where every field is.
pub proof fn law_crc_value(a: Crc, b: Crc)
    ensures
        a.deep_view() == b.deep_view() <==> {
            &&& a.version == b.version
            &&& a.metadata.deep_view() == b.metadata.deep_view()
            &&& a.protocol.deep_view() == b.protocol.deep_view()
            &&& a.file_stats_state.deep_view() == b.file_stats_state.deep_view()
            &&& a.in_commit_timestamp_opt == b.in_commit_timestamp_opt
            &&& a.set_transaction_state.deep_view() == b.set_transaction_state.deep_view()
            &&& a.domain_metadata_state.deep_view() == b.domain_metadata_state.deep_view()
            &&& a.txn_id.deep_view() == b.txn_id.deep_view()
            &&& a.all_files.deep_view() == b.all_files.deep_view()
            &&& a.num_deleted_records_opt == b.num_deleted_records_opt
            &&& a.num_deletion_vectors_opt == b.num_deletion_vectors_opt
            &&& a.deleted_record_counts_histogram_opt.deep_view() == b.deleted_record_counts_histogram_opt.deep_view()
        },
{
}

/// Two values of [`CrcDeletionVectorRaw`] are equal exactly where every field is.
pub proof fn law_crc_deletion_vector_raw_value(a: CrcDeletionVectorRaw, b: CrcDeletionVectorRaw)
    ensures
        a.deep_view() == b.deep_view() <==> {
            &&& a.storage_type@ == b.storage_type@
            &&& a.path_or_inline_dv@ == b.path_or_inline_dv@
            &&& a.offset == b.offset
            &&& a.size_in_bytes == b.size_in_bytes
            &&& a.cardinality == b.cardinality
        },
{
}

/// Two values of [`CrcAddRaw`] are equal exactly where every field is.
pub proof fn law_crc_add_raw_value(a: CrcAddRaw, b: CrcAddRaw)
    ensures
        a.deep_view() == b.deep_view() <==> {
            &&& a.path@ == b.path@
            &&& a.partition_values.deep_view() == b.partition_values.deep_view()
            &&& a.size == b.size
            &&& a.modification_time == b.modification_time
            &&& a.data_change == b.data_change
            &&& a.stats.deep_view() == b.stats.deep_view()
            &&& a.tags.deep_view() == b.tags.deep_view()
            &&& a.deletion_vector.deep_view() == b.deletion_vector.deep_view()
            &&& a.base_row_id == b.base_row_id
            &&& a.default_row_commit_version == b.default_row_commit_version
            &&& a.clustering_provider.deep_view() == b.clustering_provider.deep_view()
        },
{
}

/// Two values of [`CrcRaw`] are equal exactly where every field is.
pub proof fn law_crc_raw_value(a: CrcRaw, b: CrcRaw)
    ensures
        a.deep_view() == b.deep_view() <==> {
            &&& a.txn_id.deep_view() == b.txn_id.deep_view()
            &&& a.table_size_bytes == b.table_size_bytes
            &&& a.num_files == b.num_files
            &&& a.num_metadata == b.num_metadata
            &&& a.num_protocol == b.num_protocol
            &&& a.metadata.deep_view() == b.metadata.deep_view()
            &&& a.protocol.deep_view() == b.protocol.deep_view()
            &&& a.in_commit_timestamp_opt == b.in_commit_timestamp_opt
            &&& a.set_transactions.deep_view() == b.set_transactions.deep_view()
            &&& a.domain_metadata.deep_view() == b.domain_metadata.deep_view()
            &&& a.file_size_histogram.deep_view() == b.file_size_histogram.deep_view()
            &&& a.all_files.deep_view() == b.all_files.deep_view()
            &&& a.num_deleted_records_opt == b.num_deleted_records_opt
            &&& a.num_deletion_vectors_opt == b.num_deletion_vectors_opt
            &&& a.deleted_record_counts_histogram_opt.deep_view() == b.deleted_record_counts_histogram_opt.deep_view()
        },
{
}

/// Two values of [`CheckpointMetadata`] are equal exactly where every field is.
pub proof fn law_checkpoint_metadata_value(a: CheckpointMetadata, b: CheckpointMetadata)
    ensures
        a.deep_view() == b.deep_view() <==> {
            &&& a.version == b.version
            &&& a.tags.deep_view() == b.tags.deep_view()
        },
{
}

/// Two values of [`Sidecar`] are equal exactly where every field is.
pub proof fn law_sidecar_value(a: Sidecar, b: Sidecar)
    ensures
        a.deep_view() == b.deep_view() <==> {
            &&& a.path@ == b.path@
            &&& a.size_in_bytes == b.size_in_bytes
            &&& a.modification_time == b.modification_time
            &&& a.tags.deep_view() == b.tags.deep_view()
        },
{
}

/// Two values of [`LastCheckpointV2`] are equal exactly where every field is.
pub proof fn law_last_checkpoint_v2_value(a: LastCheckpointV2, b: LastCheckpointV2)
    ensures
        a.deep_view() == b.deep_view() <==> {
            &&& a.path@ == b.path@
            &&& a.size_in_bytes == b.size_in_bytes
            &&& a.modification_time == b.modification_time
            &&& a.sidecar_files.deep_view() == b.sidecar_files.deep_view()
            &&& a.non_file_actions.deep_view() == b.non_file_actions.deep_view()
        },
{
}

/// Two values of [`LastCheckpointHint`] are equal exactly where every field is.
pub proof fn law_last_checkpoint_hint_value(a: LastCheckpointHint, b: LastCheckpointHint)
    ensures
        a.deep_view() == b.deep_view() <==> {
            &&& a.version == b.version
            &&& a.size == b.size
            &&& a.parts == b.parts
            &&& a.size_in_bytes == b.size_in_bytes
            &&& a.num_of_add_files == b.num_of_add_files
            &&& a.checkpoint_schema.deep_view() == b.checkpoint_schema.deep_view()
            &&& a.checksum.deep_view() == b.checksum.deep_view()
            &&& a.tags.deep_view() == b.tags.deep_view()
            &&& a.v2_checkpoint.deep_view() == b.v2_checkpoint.deep_view()
        },
{
}

/// Two values of [`FileMeta`] are equal exactly where every field is.
pub proof fn law_file_meta_value(a: FileMeta, b: FileMeta)
    ensures
        a.deep_view() == b.deep_view() <==> {
            &&& a.location@ == b.location@
            &&& a.last_modified == b.last_modified
            &&& a.size == b.size
        },
{
}

/// Two values of [`ParsedLogPath`] are equal exactly where every field is.
pub proof fn law_parsed_log_path_value(a: ParsedLogPath, b: ParsedLogPath)
    ensures
        a.deep_view() == b.deep_view() <==> {
            &&& a.location.deep_view() == b.location.deep_view()
            &&& a.version == b.version
            &&& a.file_type == b.file_type
        },
{
}

/// Two values of [`LogPath`] are equal exactly where every field is.
pub proof fn law_log_path_value(a: LogPath, b: LogPath)
    ensures
        a.deep_view() == b.deep_view() <==> {
            &&& a.path.deep_view() == b.path.deep_view()
        },
{
}

/// Two values of [`LogSegmentFiles`] are equal exactly where every field is.
pub proof fn law_log_segment_files_value(a: LogSegmentFiles, b: LogSegmentFiles)
    ensures
        a.deep_view() == b.deep_view() <==> {
            &&& a.ascending_commit_files.deep_view() == b.ascending_commit_files.deep_view()
            &&& a.ascending_compaction_files.deep_view() == b.ascending_compaction_files.deep_view()
            &&& a.checkpoint_parts.deep_view() == b.checkpoint_parts.deep_view()
            &&& a.latest_crc_file.deep_view() == b.latest_crc_file.deep_view()
            &&& a.latest_commit_file.deep_view() == b.latest_commit_file.deep_view()
            &&& a.max_published_version == b.max_published_version
        },
{
}

/// Two values of [`LogSegment`] are equal exactly where every field is.
pub proof fn law_log_segment_value(a: LogSegment, b: LogSegment)
    ensures
        a.deep_view() == b.deep_view() <==> {
            &&& a.end_version == b.end_version
            &&& a.checkpoint_version == b.checkpoint_version
            &&& a.log_root@ == b.log_root@
            &&& a.listed.deep_view() == b.listed.deep_view()
            &&& a.last_checkpoint_metadata.deep_view() == b.last_checkpoint_metadata.deep_view()
        },
{
}

/// Two values of [`TableConfiguration`] are equal exactly where every field is.
pub proof fn law_table_configuration_value(a: TableConfiguration, b: TableConfiguration)
    ensures
        a.deep_view() == b.deep_view() <==> {
            &&& a.metadata.deep_view() == b.metadata.deep_view()
            &&& a.protocol.deep_view() == b.protocol.deep_view()
            &&& a.table_root@ == b.table_root@
            &&& a.version == b.version
            &&& a.catalog_managed == b.catalog_managed
        },
{
}

/// Two values of [`Snapshot`] are equal exactly where every field is.
pub proof fn law_snapshot_value(a: Snapshot, b: Snapshot)
    ensures
        a.deep_view() == b.deep_view() <==> {
            &&& a.log_segment.deep_view() == b.log_segment.deep_view()
            &&& a.table_configuration.deep_view() == b.table_configuration.deep_view()
            &&& a.crc.deep_view() == b.crc.deep_view()
            &&& a.built_as_latest == b.built_as_latest
        },
{
}

/// Two values of [`SnapshotHint`] are equal exactly where every field is.
pub proof fn law_snapshot_hint_value(a: SnapshotHint, b: SnapshotHint)
    ensures
        a.deep_view() == b.deep_view() <==> {
            &&& a.version == b.version
            &&& a.log_segment_files.deep_view() == b.log_segment_files.deep_view()
            &&& a.protocol.deep_view() == b.protocol.deep_view()
            &&& a.metadata.deep_view() == b.metadata.deep_view()
            &&& a.last_checkpoint_hint.deep_view() == b.last_checkpoint_hint.deep_view()
            &&& a.crc.deep_view() == b.crc.deep_view()
            &&& a.version_status == b.version_status
        },
{
}

/// Two values of [`SnapshotLoadMetricContext`] are equal exactly where every field is.
pub proof fn law_snapshot_load_metric_context_value(a: SnapshotLoadMetricContext, b: SnapshotLoadMetricContext)
    ensures
        a.deep_view() == b.deep_view() <==> {
            &&& a.operation_id == b.operation_id
            &&& a.is_catalog_managed == b.is_catalog_managed
            &&& a.correlation_id.deep_view() == b.correlation_id.deep_view()
            &&& a.load_type == b.load_type
        },
{
}

/// Two values of [`FileStatsState`] are equal exactly where they are of one kind and hold equal values.
pub proof fn law_file_stats_state_value(a: FileStatsState, b: FileStatsState)
    ensures
        a.deep_view() == b.deep_view() <==> match (a, b) {
            (FileStatsState::Complete(x), FileStatsState::Complete(y)) => x.deep_view() == y.deep_view(),
            (FileStatsState::Indeterminate, FileStatsState::Indeterminate) => true,
            _ => false,
        },
{
}

/// Two values of [`SetTransactionState`] are equal exactly where they are of one kind and hold equal values.
pub proof fn law_set_transaction_state_value(a: SetTransactionState, b: SetTransactionState)
    ensures
        a.deep_view() == b.deep_view() <==> match (a, b) {
            (SetTransactionState::Complete(x), SetTransactionState::Complete(y)) => x.deep_view() == y.deep_view(),
            (SetTransactionState::Partial(x), SetTransactionState::Partial(y)) => x.deep_view() == y.deep_view(),
            _ => false,
        },
{
}

/// Two values of [`DomainMetadataState`] are equal exactly where they are of one kind and hold equal values.
pub proof fn law_domain_metadata_state_value(a: DomainMetadataState, b: DomainMetadataState)
    ensures
        a.deep_view() == b.deep_view() <==> match (a, b) {
            (DomainMetadataState::Complete(x), DomainMetadataState::Complete(y)) => x.deep_view() == y.deep_view(),
            (DomainMetadataState::Partial(x), DomainMetadataState::Partial(y)) => x.deep_view() == y.deep_view(),
            _ => false,
        },
{
}

/// Two values of [`HintAction`] are equal exactly where they are of one kind and hold equal values.
pub proof fn law_hint_action_value(a: HintAction, b: HintAction)
    ensures
        a.deep_view() == b.deep_view() <==> match (a, b) {
            (HintAction::Metadata(x), HintAction::Metadata(y)) => x.deep_view() == y.deep_view(),
            (HintAction::Protocol(x), HintAction::Protocol(y)) => x.deep_view() == y.deep_view(),
            (HintAction::Txn(x), HintAction::Txn(y)) => x.deep_view() == y.deep_view(),
            (HintAction::DomainMetadata(x), HintAction::DomainMetadata(y)) => x.deep_view() == y.deep_view(),
            (HintAction::CheckpointMetadata(x), HintAction::CheckpointMetadata(y)) => x.deep_view() == y.deep_view(),
            _ => false,
        },
{
}

} // verus!
