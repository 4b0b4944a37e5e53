//! The values that a C caller passes to describe a snapshot hint.
//!
//! A pointer is an `Option`: `None` stands for null. A pointer to an array is `Some` with the
//! elements that it addresses, of which as many are read as the length beside it says.

use vstd::prelude::*;

verus! {

/// Integer freshness claim attached to a connector-provided snapshot hint.
pub type FfiSnapshotHintVersionStatus = u32;

/// The connector has not established that the hinted version is latest.
pub const SNAPSHOT_HINT_VERSION_STATUS_UNVERIFIED: FfiSnapshotHintVersionStatus = 0;

/// The connector has established that the hinted version is latest.
pub const SNAPSHOT_HINT_VERSION_STATUS_LATEST: FfiSnapshotHintVersionStatus = 1;

/// The bytes of a string, which should be UTF-8.
#[derive(Debug)]
pub struct KernelStringSlice {
    /// The bytes.
    pub bytes: Vec<u8>,
}

/// Optional UTF-8 string.
#[derive(Debug)]
pub struct FfiOptionalString {
    /// Whether `value` is present.
    pub has_value: bool,
    /// String value. Ignored when `has_value` is false.
    pub value: KernelStringSlice,
}

/// Optional signed 64-bit integer.
#[derive(Debug)]
pub struct FfiOptionalI64 {
    /// Whether `value` is present.
    pub has_value: bool,
    /// Integer value. Ignored when `has_value` is false.
    pub value: i64,
}

/// Optional unsigned 64-bit integer.
#[derive(Debug)]
pub struct FfiOptionalU64 {
    /// Whether `value` is present.
    pub has_value: bool,
    /// Integer value. Ignored when `has_value` is false.
    pub value: u64,
}

/// Array of UTF-8 strings.
#[derive(Debug)]
pub struct FfiStringArray {
    /// Pointer to `len` strings, or null when `len` is zero.
    pub ptr: Option<Vec<KernelStringSlice>>,
    /// Number of strings in the array.
    pub len: usize,
}

/// Optional array of UTF-8 strings.
#[derive(Debug)]
pub struct FfiOptionalStringArray {
    /// Whether the array is present. A present empty array differs from an absent array.
    pub has_value: bool,
    /// Array value. Ignored when `has_value` is false.
    pub value: FfiStringArray,
}

/// One UTF-8 map entry.
#[derive(Debug)]
pub struct FfiStringMapEntry {
    /// Entry key.
    pub key: KernelStringSlice,
    /// Entry value.
    pub value: KernelStringSlice,
}

/// Array of UTF-8 map entries.
#[derive(Debug)]
pub struct FfiStringMap {
    /// Pointer to `len` entries, or null when `len` is zero.
    pub ptr: Option<Vec<FfiStringMapEntry>>,
    /// Number of entries.
    pub len: usize,
}

/// Optional UTF-8 map.
#[derive(Debug)]
pub struct FfiOptionalStringMap {
    /// Whether the map is present. A present empty map differs from an absent map.
    pub has_value: bool,
    /// Map value. Ignored when `has_value` is false.
    pub value: FfiStringMap,
}

/// Protocol state.
#[derive(Debug)]
pub struct FfiSnapshotHintProtocol {
    /// Minimum reader protocol version.
    pub min_reader_version: i32,
    /// Minimum writer protocol version.
    pub min_writer_version: i32,
    /// Optional reader feature list.
    pub reader_features: FfiOptionalStringArray,
    /// Optional writer feature list.
    pub writer_features: FfiOptionalStringArray,
}

/// Metadata state.
#[derive(Debug)]
pub struct FfiSnapshotHintMetadata {
    /// Table identifier.
    pub id: KernelStringSlice,
    /// Optional table name.
    pub name: FfiOptionalString,
    /// Optional table description.
    pub description: FfiOptionalString,
    /// Data format provider.
    pub format_provider: KernelStringSlice,
    /// Data format options.
    pub format_options: FfiStringMap,
    /// Canonical schema string.
    pub schema_string: KernelStringSlice,
    /// Logical partition column names.
    pub partition_columns: FfiStringArray,
    /// Optional metadata creation time in milliseconds since the Unix epoch.
    pub created_time: FfiOptionalI64,
    /// Table configuration entries.
    pub configuration: FfiStringMap,
}

/// Set-transaction action.
#[derive(Debug)]
pub struct FfiSnapshotHintSetTransaction {
    /// Application identifier.
    pub app_id: KernelStringSlice,
    /// Application-specific transaction version.
    pub version: i64,
    /// Optional last-updated time in milliseconds since the Unix epoch.
    pub last_updated: FfiOptionalI64,
}

/// Domain-metadata action.
#[derive(Debug)]
pub struct FfiSnapshotHintDomainMetadata {
    /// Domain identifier.
    pub domain: KernelStringSlice,
    /// Domain configuration payload.
    pub configuration: KernelStringSlice,
    /// Whether this action removes the domain.
    pub removed: bool,
}

/// Checkpoint-metadata action.
#[derive(Debug)]
pub struct FfiSnapshotHintCheckpointMetadata {
    /// Checkpoint version.
    pub version: i64,
    /// Optional action tags.
    pub tags: FfiOptionalStringMap,
}

/// Checkpoint sidecar.
#[derive(Debug)]
pub struct FfiSnapshotHintSidecar {
    /// Sidecar path.
    pub path: KernelStringSlice,
    /// Sidecar size in bytes.
    pub size_in_bytes: i64,
    /// Sidecar modification time in milliseconds since the Unix epoch.
    pub modification_time: i64,
    /// Optional sidecar tags.
    pub tags: FfiOptionalStringMap,
}

/// Integer discriminator for a checkpoint non-file action.
pub type FfiSnapshotHintActionKind = u32;

/// Metadata action discriminator.
pub const SNAPSHOT_HINT_ACTION_METADATA: FfiSnapshotHintActionKind = 0;

/// Protocol action discriminator.
pub const SNAPSHOT_HINT_ACTION_PROTOCOL: FfiSnapshotHintActionKind = 1;

/// Set-transaction action discriminator.
pub const SNAPSHOT_HINT_ACTION_TRANSACTION: FfiSnapshotHintActionKind = 2;

/// Domain-metadata action discriminator.
pub const SNAPSHOT_HINT_ACTION_DOMAIN_METADATA: FfiSnapshotHintActionKind = 3;

/// Checkpoint-metadata action discriminator.
pub const SNAPSHOT_HINT_ACTION_CHECKPOINT_METADATA: FfiSnapshotHintActionKind = 4;

/// Typed payload pointers for a checkpoint non-file action. Only the one that the kind of the
/// action names is looked at.
#[derive(Debug)]
pub struct FfiSnapshotHintActionValue {
    /// Metadata payload.
    pub metadata: Option<FfiSnapshotHintMetadata>,
    /// Protocol payload.
    pub protocol: Option<FfiSnapshotHintProtocol>,
    /// Set-transaction payload.
    pub transaction: Option<FfiSnapshotHintSetTransaction>,
    /// Domain-metadata payload.
    pub domain_metadata: Option<FfiSnapshotHintDomainMetadata>,
    /// Checkpoint-metadata payload.
    pub checkpoint_metadata: Option<FfiSnapshotHintCheckpointMetadata>,
}

/// One checkpoint non-file action.
#[derive(Debug)]
pub struct FfiSnapshotHintAction {
    /// Type of the object addressed by `value`.
    pub kind: FfiSnapshotHintActionKind,
    /// Corresponding typed payload pointer.
    pub value: FfiSnapshotHintActionValue,
}

/// Array of checkpoint sidecars.
#[derive(Debug)]
pub struct FfiSnapshotHintSidecarArray {
    /// Pointer to `len` sidecars, or null when `len` is zero.
    pub ptr: Option<Vec<FfiSnapshotHintSidecar>>,
    /// Number of sidecars.
    pub len: usize,
}

/// Array of checkpoint non-file actions.
#[derive(Debug)]
pub struct FfiSnapshotHintActionArray {
    /// Pointer to `len` actions, or null when `len` is zero.
    pub ptr: Option<Vec<FfiSnapshotHintAction>>,
    /// Number of actions.
    pub len: usize,
}

/// Fields of a checkpoint with sidecars.
#[derive(Debug)]
pub struct FfiSnapshotHintV2Checkpoint {
    /// Checkpoint file name.
    pub path: KernelStringSlice,
    /// Optional checkpoint file size.
    pub size_in_bytes: FfiOptionalI64,
    /// Optional checkpoint file modification time.
    pub modification_time: FfiOptionalI64,
    /// Whether sidecar information is present.
    pub has_sidecar_files: bool,
    /// Sidecars. Ignored when `has_sidecar_files` is false.
    pub sidecar_files: FfiSnapshotHintSidecarArray,
    /// Whether non-file actions are present.
    pub has_non_file_actions: bool,
    /// Non-file actions. Ignored when `has_non_file_actions` is false.
    pub non_file_actions: FfiSnapshotHintActionArray,
}

/// Fields of a `_last_checkpoint` file.
#[derive(Debug)]
pub struct FfiSnapshotHintLastCheckpoint {
    /// Checkpoint version.
    pub version: u64,
    /// Number of actions in the checkpoint.
    pub size: i64,
    /// Optional number of checkpoint parts.
    pub parts: FfiOptionalU64,
    /// Optional total checkpoint size in bytes.
    pub size_in_bytes: FfiOptionalI64,
    /// Optional number of data files.
    pub num_of_add_files: FfiOptionalI64,
    /// Optional canonical checkpoint schema string.
    pub checkpoint_schema: FfiOptionalString,
    /// Optional checkpoint JSON checksum.
    pub checksum: FfiOptionalString,
    /// Optional checkpoint tags.
    pub tags: FfiOptionalStringMap,
    /// Optional information on a checkpoint with sidecars.
    pub v2_checkpoint: Option<FfiSnapshotHintV2Checkpoint>,
}

/// Array of signed 64-bit integers.
#[derive(Debug)]
pub struct FfiI64Array {
    /// Pointer to `len` integers, or null when `len` is zero.
    pub ptr: Option<Vec<i64>>,
    /// Number of integers.
    pub len: usize,
}

/// File-size histogram fields.
#[derive(Debug)]
pub struct FfiSnapshotHintFileSizeHistogram {
    /// Sorted lower boundary of every histogram bin.
    pub sorted_bin_boundaries: FfiI64Array,
    /// File count in every histogram bin.
    pub file_counts: FfiI64Array,
    /// Total bytes in every histogram bin.
    pub total_bytes: FfiI64Array,
}

/// Array of set-transaction actions.
#[derive(Debug)]
pub struct FfiSnapshotHintSetTransactionArray {
    /// Pointer to `len` actions, or null when `len` is zero.
    pub ptr: Option<Vec<FfiSnapshotHintSetTransaction>>,
    /// Number of actions.
    pub len: usize,
}

/// Array of domain-metadata actions.
#[derive(Debug)]
pub struct FfiSnapshotHintDomainMetadataArray {
    /// Pointer to `len` actions, or null when `len` is zero.
    pub ptr: Option<Vec<FfiSnapshotHintDomainMetadata>>,
    /// Number of actions.
    pub len: usize,
}

/// Checksum state fields.
#[derive(Debug)]
pub struct FfiSnapshotHintCrc {
    /// Total table size in bytes.
    pub table_size_bytes: i64,
    /// Number of active files.
    pub num_files: i64,
    /// Optional in-commit timestamp.
    pub in_commit_timestamp: FfiOptionalI64,
    /// Optional file-size histogram.
    pub file_size_histogram: Option<FfiSnapshotHintFileSizeHistogram>,
    /// Whether the transaction list is present and complete.
    pub has_set_transactions: bool,
    /// Set transactions. Ignored when `has_set_transactions` is false.
    pub set_transactions: FfiSnapshotHintSetTransactionArray,
    /// Whether the domain-metadata list is present and complete.
    pub has_domain_metadata: bool,
    /// Domain metadata. Ignored when `has_domain_metadata` is false.
    pub domain_metadata: FfiSnapshotHintDomainMetadataArray,
}

} // verus!
