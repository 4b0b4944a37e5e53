use std::sync::Arc;

use delta_snapshot::actions::{DeletionVectorDescriptor, Metadata, Protocol};
use delta_snapshot::crc::checksum::Crc;
use delta_snapshot::crc::raw::CrcRaw;
use delta_snapshot::error::Error;
use delta_snapshot::ffi::components::{
    action, checkpoint_metadata, crc, domain_metadata, i64s, last_checkpoint, metadata, protocol,
    set_transaction, sidecar, v2_checkpoint,
};
use delta_snapshot::ffi::convert::{
    optional_i64, optional_string, optional_string_map, optional_strings, optional_usize,
    parse_version_status, raw_slice, required_ref, string, string_map, strings,
};
use delta_snapshot::ffi::values::{
    FfiI64Array, FfiOptionalI64, FfiOptionalString, FfiOptionalStringArray, FfiOptionalStringMap,
    FfiOptionalU64, FfiSnapshotHintAction, FfiSnapshotHintActionArray, FfiSnapshotHintActionValue,
    FfiSnapshotHintCheckpointMetadata, FfiSnapshotHintCrc, FfiSnapshotHintDomainMetadata,
    FfiSnapshotHintDomainMetadataArray, FfiSnapshotHintFileSizeHistogram,
    FfiSnapshotHintLastCheckpoint, FfiSnapshotHintMetadata, FfiSnapshotHintProtocol,
    FfiSnapshotHintSetTransaction, FfiSnapshotHintSetTransactionArray, FfiSnapshotHintSidecar,
    FfiSnapshotHintSidecarArray, FfiSnapshotHintV2Checkpoint, FfiStringArray, FfiStringMap,
    FfiStringMapEntry, KernelStringSlice, SNAPSHOT_HINT_ACTION_CHECKPOINT_METADATA,
    SNAPSHOT_HINT_ACTION_DOMAIN_METADATA, SNAPSHOT_HINT_ACTION_METADATA,
    SNAPSHOT_HINT_ACTION_PROTOCOL, SNAPSHOT_HINT_ACTION_TRANSACTION,
    SNAPSHOT_HINT_VERSION_STATUS_LATEST, SNAPSHOT_HINT_VERSION_STATUS_UNVERIFIED,
};
use delta_snapshot::ffi::visitor::{
    into_snapshot_hint, snapshot_builder_snapshot_hint_begin,
    snapshot_builder_snapshot_hint_finish, snapshot_builder_snapshot_hint_set_crc,
    snapshot_builder_snapshot_hint_set_last_checkpoint,
    snapshot_builder_snapshot_hint_set_log_paths, snapshot_builder_snapshot_hint_set_metadata,
    snapshot_builder_snapshot_hint_set_protocol, FfiSnapshotBuilder, FfiSnapshotHintState,
};
use delta_snapshot::last_checkpoint::{HintAction, LastCheckpointHint};
use delta_snapshot::log_files::{
    FileMeta, LogPath, LogPathFileType, LogSegment, LogSegmentFiles, ParsedLogPath,
};
use delta_snapshot::snapshot::builder::SnapshotBuilder;
use delta_snapshot::snapshot::engine::{Engine, TableFormat};
use delta_snapshot::snapshot::replay::IncrementalReplay;
use delta_snapshot::snapshot::types::{
    MetricId, Snapshot, SnapshotHintVersionStatus, SnapshotLoadMetricContext, SnapshotRef,
    TableConfiguration,
};

/// A table format without storage: any read fails.
struct NoStorage;

impl TableFormat for NoStorage {
    fn parse_table_root(&self, table_root: &String) -> Result<String, Error> {
        Ok(table_root.clone())
    }

    fn validate_log_path_fields(&self, _files: &LogSegmentFiles) -> Result<(), Error> {
        Ok(())
    }

    fn log_segment(
        &self,
        files: LogSegmentFiles,
        log_root: String,
        end_version: Option<u64>,
        last_checkpoint: Option<LastCheckpointHint>,
    ) -> Result<LogSegment, Error> {
        Ok(LogSegment {
            end_version: end_version.unwrap(),
            checkpoint_version: None,
            log_root,
            listed: files,
            last_checkpoint_metadata: last_checkpoint,
        })
    }

    fn catalog_managed(
        &self,
        _metadata: &Metadata,
        _protocol: &Protocol,
        _table_root: &String,
        _version: u64,
    ) -> Result<bool, Error> {
        Ok(false)
    }

    fn check_snapshot(
        &self,
        _log_segment: &LogSegment,
        _table_configuration: &TableConfiguration,
        _crc: &Option<Arc<Crc>>,
    ) -> Result<(), Error> {
        Ok(())
    }

    fn check_protocol(&self, protocol: &Protocol) -> Result<(), Error> {
        if protocol.min_reader_version < 1 {
            return Err(Error::InvalidProtocol("reader version".to_string()));
        }
        Ok(())
    }

    fn check_deletion_vector(
        &self,
        _deletion_vector: &DeletionVectorDescriptor,
    ) -> Result<(), Error> {
        Ok(())
    }

    fn check_last_checkpoint(&self, hint: &LastCheckpointHint) -> Result<(), Error> {
        if hint.size < 0 {
            return Err(Error::InvalidCheckpoint("size".to_string()));
        }
        Ok(())
    }

    fn sort_log_paths(&self, version: u64, paths: Vec<LogPath>) -> Result<LogSegmentFiles, Error> {
        if paths.is_empty() {
            return Err(Error::InvalidSnapshotHint("no log files".to_string()));
        }
        let commits: Vec<ParsedLogPath> = paths.into_iter().map(|p| p.into_parsed()).collect();
        Ok(LogSegmentFiles {
            latest_commit_file: Some(commit(version).into_parsed()),
            ascending_commit_files: commits,
            ..LogSegmentFiles::default()
        })
    }
}

impl Engine for NoStorage {
    type Token = ();

    fn list_log_segment(
        &self,
        _log_root: &String,
        _log_tail: Vec<ParsedLogPath>,
        _end_version: Option<u64>,
        _context: &SnapshotLoadMetricContext,
        _token: &Option<()>,
    ) -> Result<LogSegment, Error> {
        Err(Error::Other("no storage".to_string()))
    }

    fn load_snapshot(
        &self,
        _table_root: String,
        _log_segment: LogSegment,
        _context: &SnapshotLoadMetricContext,
        _replay: IncrementalReplay,
        _built_as_latest: bool,
    ) -> Result<Snapshot, Error> {
        Err(Error::Other("no storage".to_string()))
    }

    fn update_snapshot(
        &self,
        _existing: SnapshotRef,
        _log_tail: Vec<ParsedLogPath>,
        _version: Option<u64>,
        _context: &SnapshotLoadMetricContext,
        _replay: IncrementalReplay,
        _built_as_latest: bool,
        _token: &Option<()>,
    ) -> Result<SnapshotRef, Error> {
        Err(Error::Other("no storage".to_string()))
    }
}

fn commit(version: u64) -> LogPath {
    LogPath {
        path: ParsedLogPath {
            location: FileMeta {
                location: format!("memory:///hinted-table/_delta_log/{version:020}.json"),
                last_modified: 1,
                size: 1,
            },
            version,
            file_type: LogPathFileType::Commit,
        },
    }
}

fn slice(value: &str) -> KernelStringSlice {
    KernelStringSlice {
        bytes: value.as_bytes().to_vec(),
    }
}

fn broken() -> KernelStringSlice {
    KernelStringSlice {
        bytes: vec![b'a', 0xff],
    }
}

fn none_string() -> FfiOptionalString {
    FfiOptionalString {
        has_value: false,
        value: slice(""),
    }
}

fn none_i64() -> FfiOptionalI64 {
    FfiOptionalI64 {
        has_value: false,
        value: 0,
    }
}

fn none_u64() -> FfiOptionalU64 {
    FfiOptionalU64 {
        has_value: false,
        value: 0,
    }
}

fn empty_strings(present: bool) -> FfiOptionalStringArray {
    FfiOptionalStringArray {
        has_value: present,
        value: FfiStringArray { ptr: None, len: 0 },
    }
}

fn empty_map() -> FfiStringMap {
    FfiStringMap { ptr: None, len: 0 }
}

fn none_map() -> FfiOptionalStringMap {
    FfiOptionalStringMap {
        has_value: false,
        value: empty_map(),
    }
}

fn test_protocol() -> FfiSnapshotHintProtocol {
    FfiSnapshotHintProtocol {
        min_reader_version: 1,
        min_writer_version: 2,
        reader_features: empty_strings(false),
        writer_features: empty_strings(false),
    }
}

fn test_metadata() -> FfiSnapshotHintMetadata {
    FfiSnapshotHintMetadata {
        id: slice("table-id"),
        name: none_string(),
        description: none_string(),
        format_provider: slice("parquet"),
        format_options: empty_map(),
        schema_string: slice(r#"{"type":"struct","fields":[]}"#),
        partition_columns: FfiStringArray { ptr: None, len: 0 },
        created_time: none_i64(),
        configuration: empty_map(),
    }
}

fn integers(values: &[i64]) -> FfiI64Array {
    FfiI64Array {
        ptr: Some(values.to_vec()),
        len: values.len(),
    }
}

fn test_transaction() -> FfiSnapshotHintSetTransaction {
    FfiSnapshotHintSetTransaction {
        app_id: slice("app"),
        version: 7,
        last_updated: FfiOptionalI64 {
            has_value: true,
            value: 123,
        },
    }
}

fn test_domain(removed: bool) -> FfiSnapshotHintDomainMetadata {
    FfiSnapshotHintDomainMetadata {
        domain: slice("example.domain"),
        configuration: slice("payload"),
        removed,
    }
}

fn no_transactions() -> FfiSnapshotHintSetTransactionArray {
    FfiSnapshotHintSetTransactionArray { ptr: None, len: 0 }
}

fn no_domains() -> FfiSnapshotHintDomainMetadataArray {
    FfiSnapshotHintDomainMetadataArray { ptr: None, len: 0 }
}

fn plain_crc() -> FfiSnapshotHintCrc {
    FfiSnapshotHintCrc {
        table_size_bytes: 0,
        num_files: 0,
        in_commit_timestamp: none_i64(),
        file_size_histogram: None,
        has_set_transactions: false,
        set_transactions: no_transactions(),
        has_domain_metadata: false,
        domain_metadata: no_domains(),
    }
}

fn null_value() -> FfiSnapshotHintActionValue {
    FfiSnapshotHintActionValue {
        metadata: None,
        protocol: None,
        transaction: None,
        domain_metadata: None,
        checkpoint_metadata: None,
    }
}

fn test_checkpoint_metadata() -> FfiSnapshotHintCheckpointMetadata {
    FfiSnapshotHintCheckpointMetadata {
        version: 5,
        tags: none_map(),
    }
}

fn test_sidecar() -> FfiSnapshotHintSidecar {
    FfiSnapshotHintSidecar {
        path: slice("sidecar.parquet"),
        size_in_bytes: 42,
        modification_time: 123,
        tags: none_map(),
    }
}

fn test_v2() -> FfiSnapshotHintV2Checkpoint {
    FfiSnapshotHintV2Checkpoint {
        path: slice("00000000000000000005.checkpoint.uuid.parquet"),
        size_in_bytes: none_i64(),
        modification_time: none_i64(),
        has_sidecar_files: true,
        sidecar_files: FfiSnapshotHintSidecarArray {
            ptr: Some(vec![test_sidecar()]),
            len: 1,
        },
        has_non_file_actions: true,
        non_file_actions: FfiSnapshotHintActionArray {
            ptr: Some(vec![FfiSnapshotHintAction {
                kind: SNAPSHOT_HINT_ACTION_CHECKPOINT_METADATA,
                value: FfiSnapshotHintActionValue {
                    checkpoint_metadata: Some(test_checkpoint_metadata()),
                    ..null_value()
                },
            }]),
            len: 1,
        },
    }
}

fn test_last_checkpoint() -> FfiSnapshotHintLastCheckpoint {
    FfiSnapshotHintLastCheckpoint {
        version: 5,
        size: 1,
        parts: none_u64(),
        size_in_bytes: none_i64(),
        num_of_add_files: none_i64(),
        checkpoint_schema: none_string(),
        checksum: none_string(),
        tags: none_map(),
        v2_checkpoint: Some(test_v2()),
    }
}

fn new_builder() -> FfiSnapshotBuilder {
    FfiSnapshotBuilder {
        snapshot_hint: FfiSnapshotHintState::Absent,
    }
}

fn begun() -> FfiSnapshotBuilder {
    let mut builder = new_builder();
    assert!(snapshot_builder_snapshot_hint_begin(
        &mut builder,
        0,
        SNAPSHOT_HINT_VERSION_STATUS_UNVERIFIED
    )
    .unwrap());
    builder
}

const NOT_STARTED: &str = "Invalid snapshot hint: snapshot hint visitor has not been started";

#[test]
fn typed_components_construct_rich_snapshot_state() {
    let read_protocol = protocol(&NoStorage, &test_protocol()).unwrap();
    let read_metadata = metadata(&test_metadata()).unwrap();
    assert_eq!(read_metadata.id, "table-id");
    assert_eq!(read_protocol.min_writer_version, 2);

    let value = FfiSnapshotHintCrc {
        table_size_bytes: 512,
        num_files: 1,
        file_size_histogram: Some(FfiSnapshotHintFileSizeHistogram {
            sorted_bin_boundaries: integers(&[0, 1024]),
            file_counts: integers(&[1, 0]),
            total_bytes: integers(&[512, 0]),
        }),
        has_set_transactions: true,
        set_transactions: FfiSnapshotHintSetTransactionArray {
            ptr: Some(vec![test_transaction()]),
            len: 1,
        },
        has_domain_metadata: true,
        domain_metadata: FfiSnapshotHintDomainMetadataArray {
            ptr: Some(vec![test_domain(false)]),
            len: 1,
        },
        ..plain_crc()
    };
    let state = crc(&value, 5, read_metadata, read_protocol).unwrap();
    assert_eq!(state.version, 5);
    assert_eq!(state.file_stats().unwrap().num_files(), 1);
    assert_eq!(state.set_transaction_state.expect_complete().len(), 1);
    assert_eq!(state.domain_metadata_state.expect_complete().len(), 1);

    let checkpoint = last_checkpoint(&NoStorage, &test_last_checkpoint()).unwrap();
    assert_eq!(checkpoint.version, 5);
    let v2 = checkpoint.v2_checkpoint.unwrap();
    assert_eq!(v2.sidecar_files.unwrap()[0].size_in_bytes, 42);
    assert!(matches!(
        v2.non_file_actions.unwrap()[0],
        HintAction::CheckpointMetadata(_)
    ));
}

fn document(protocol: Protocol) -> CrcRaw {
    CrcRaw {
        txn_id: Some("txn".to_string()),
        table_size_bytes: 9,
        num_files: 1,
        num_metadata: 1,
        num_protocol: 1,
        metadata: Metadata::default(),
        protocol,
        in_commit_timestamp_opt: None,
        set_transactions: None,
        domain_metadata: None,
        file_size_histogram: None,
        all_files: None,
        num_deleted_records_opt: None,
        num_deletion_vectors_opt: None,
        deleted_record_counts_histogram_opt: None,
    }
}

#[test]
fn documents_are_parsed_and_their_protocol_checked() {
    let refused = Crc::try_from_document(&NoStorage, Err("eof at line 1".to_string()), 3);
    assert!(matches!(refused, Err(Error::MalformedJson(m)) if m == "eof at line 1"));
    let refused = Crc::try_from_document(&NoStorage, Ok(document(Protocol::default())), 3);
    assert!(matches!(
        refused,
        Err(Error::MalformedJson(m))
            if m == "Invalid protocol action in the delta log: reader version"
    ));
    let usable = Protocol {
        min_reader_version: 1,
        min_writer_version: 1,
        reader_features: None,
        writer_features: None,
    };
    let state = Crc::try_from_document(&NoStorage, Ok(document(usable)), 3).unwrap();
    assert_eq!(state.version, 3);
    assert_eq!(state.txn_id.as_deref(), Some("txn"));
    assert_eq!(state.file_stats().unwrap().table_size_bytes(), 9);
}

#[test]
fn typed_arrays_preserve_absent_and_present_empty() {
    assert_eq!(optional_strings(&empty_strings(false)).unwrap(), None);
    assert_eq!(optional_strings(&empty_strings(true)).unwrap(), Some(vec![]));
}

#[test]
fn typed_array_rejects_null_nonempty_pointer() {
    let invalid = FfiStringArray { ptr: None, len: 1 };
    assert_eq!(
        strings(&invalid).unwrap_err().to_text(),
        "Invalid snapshot hint: string array pointer is null with length 1"
    );
}

fn typed_action(kind: u32, value: FfiSnapshotHintActionValue) -> FfiSnapshotHintAction {
    FfiSnapshotHintAction { kind, value }
}

#[test]
fn typed_actions_validate_tags_and_convert_each_payload() {
    let read = action(
        &NoStorage,
        &typed_action(
            SNAPSHOT_HINT_ACTION_METADATA,
            FfiSnapshotHintActionValue {
                metadata: Some(test_metadata()),
                ..null_value()
            },
        ),
    );
    assert!(matches!(read, Ok(HintAction::Metadata(m)) if m.id == "table-id"));
    let read = action(
        &NoStorage,
        &typed_action(
            SNAPSHOT_HINT_ACTION_PROTOCOL,
            FfiSnapshotHintActionValue {
                protocol: Some(test_protocol()),
                ..null_value()
            },
        ),
    );
    assert!(matches!(read, Ok(HintAction::Protocol(p)) if p.min_reader_version == 1));
    let read = action(
        &NoStorage,
        &typed_action(
            SNAPSHOT_HINT_ACTION_TRANSACTION,
            FfiSnapshotHintActionValue {
                transaction: Some(FfiSnapshotHintSetTransaction {
                    app_id: slice("app"),
                    version: 1,
                    last_updated: none_i64(),
                }),
                ..null_value()
            },
        ),
    );
    assert!(matches!(
        read,
        Ok(HintAction::Txn(t)) if t.app_id == "app" && t.version == 1 && t.last_updated.is_none()
    ));
    let read = action(
        &NoStorage,
        &typed_action(
            SNAPSHOT_HINT_ACTION_DOMAIN_METADATA,
            FfiSnapshotHintActionValue {
                domain_metadata: Some(FfiSnapshotHintDomainMetadata {
                    domain: slice("domain"),
                    configuration: slice("{}"),
                    removed: false,
                }),
                ..null_value()
            },
        ),
    );
    assert!(matches!(
        read,
        Ok(HintAction::DomainMetadata(d))
            if d.domain == "domain" && d.configuration == "{}" && !d.removed
    ));
    let read = action(
        &NoStorage,
        &typed_action(
            SNAPSHOT_HINT_ACTION_CHECKPOINT_METADATA,
            FfiSnapshotHintActionValue {
                checkpoint_metadata: Some(FfiSnapshotHintCheckpointMetadata {
                    version: 1,
                    tags: none_map(),
                }),
                ..null_value()
            },
        ),
    );
    assert!(matches!(
        read,
        Ok(HintAction::CheckpointMetadata(c)) if c.version == 1 && c.tags.is_none()
    ));

    let unknown = action(&NoStorage, &typed_action(u32::MAX, null_value()));
    assert_eq!(
        unknown.unwrap_err().to_text(),
        "Invalid snapshot hint: unknown snapshot hint action kind: 4294967295"
    );
    let names = [
        "metadata action",
        "protocol action",
        "transaction action",
        "domain-metadata action",
        "checkpoint-metadata action",
    ];
    for (kind, name) in names.iter().enumerate() {
        let null = action(&NoStorage, &typed_action(kind as u32, null_value()));
        assert_eq!(
            null.unwrap_err().to_text(),
            format!("Invalid snapshot hint: snapshot hint {name} value is null")
        );
    }
}

#[test]
fn typed_visitor_rejects_unknown_freshness_and_unfinished_build() {
    let mut builder = new_builder();
    let result = snapshot_builder_snapshot_hint_begin(&mut builder, 0, u32::MAX);
    assert_eq!(
        result.unwrap_err().to_text(),
        "Invalid snapshot hint: unknown snapshot hint version status: 4294967295"
    );
    let result = snapshot_builder_snapshot_hint_set_metadata(&mut builder, &test_metadata());
    assert_eq!(result.unwrap_err().to_text(), NOT_STARTED);

    snapshot_builder_snapshot_hint_begin(
        &mut builder,
        0,
        SNAPSHOT_HINT_VERSION_STATUS_UNVERIFIED,
    )
    .unwrap();
    assert_eq!(
        into_snapshot_hint(builder).unwrap_err().to_text(),
        "Invalid snapshot hint: snapshot hint visitor is unfinished"
    );
    assert!(matches!(into_snapshot_hint(new_builder()), Ok(None)));
}

#[test]
fn typed_crc_reports_malformed_histogram_as_invalid_snapshot_hint() {
    let mut builder = begun();
    snapshot_builder_snapshot_hint_set_protocol(&mut builder, &NoStorage, &test_protocol())
        .unwrap();
    snapshot_builder_snapshot_hint_set_metadata(&mut builder, &test_metadata()).unwrap();
    let value = FfiSnapshotHintCrc {
        file_size_histogram: Some(FfiSnapshotHintFileSizeHistogram {
            sorted_bin_boundaries: integers(&[0]),
            file_counts: integers(&[0]),
            total_bytes: integers(&[0]),
        }),
        ..plain_crc()
    };
    assert_eq!(
        snapshot_builder_snapshot_hint_set_crc(&mut builder, &value)
            .unwrap_err()
            .to_text(),
        "Invalid snapshot hint: sorted_bin_boundaries must have at least 2 elements, got 1"
    );
}

#[test]
fn typed_visitor_builds_latest_snapshot_without_storage_files() {
    let mut builder = new_builder();
    snapshot_builder_snapshot_hint_begin(&mut builder, 0, SNAPSHOT_HINT_VERSION_STATUS_LATEST)
        .unwrap();
    snapshot_builder_snapshot_hint_set_log_paths(&mut builder, Ok(vec![commit(0)])).unwrap();
    snapshot_builder_snapshot_hint_set_protocol(&mut builder, &NoStorage, &test_protocol())
        .unwrap();
    snapshot_builder_snapshot_hint_set_metadata(&mut builder, &test_metadata()).unwrap();
    assert!(snapshot_builder_snapshot_hint_finish(&mut builder, &NoStorage).unwrap());

    let hint = into_snapshot_hint(builder).unwrap().unwrap();
    let snapshot = SnapshotBuilder::new_for("memory:///hinted-table/", MetricId { id: 1 })
        .with_snapshot_hint(hint)
        .build(&NoStorage)
        .unwrap();
    assert_eq!(snapshot.version(), 0);
    assert!(snapshot.is_built_as_latest());
}

#[test]
fn typed_visitor_rejects_missing_fields_and_partial_state_can_be_freed() {
    let mut builder = begun();
    assert_eq!(
        snapshot_builder_snapshot_hint_finish(&mut builder, &NoStorage)
            .unwrap_err()
            .to_text(),
        "Invalid snapshot hint: snapshot hint log paths were not supplied"
    );
    assert_eq!(
        snapshot_builder_snapshot_hint_finish(&mut builder, &NoStorage)
            .unwrap_err()
            .to_text(),
        NOT_STARTED
    );
    drop(builder);
    drop(begun());
}

#[test]
fn every_required_component_is_missed_in_turn() {
    let mut builder = begun();
    snapshot_builder_snapshot_hint_set_log_paths(&mut builder, Ok(vec![commit(0)])).unwrap();
    assert!(snapshot_builder_snapshot_hint_finish(&mut builder, &NoStorage)
        .unwrap_err()
        .to_text()
        .contains("protocol was not supplied"));
    let mut builder = begun();
    snapshot_builder_snapshot_hint_set_log_paths(&mut builder, Ok(vec![commit(0)])).unwrap();
    snapshot_builder_snapshot_hint_set_protocol(&mut builder, &NoStorage, &test_protocol())
        .unwrap();
    assert!(snapshot_builder_snapshot_hint_finish(&mut builder, &NoStorage)
        .unwrap_err()
        .to_text()
        .contains("metadata was not supplied"));
}

#[test]
fn finish_reports_the_error_of_the_log_paths() {
    let mut builder = begun();
    snapshot_builder_snapshot_hint_set_log_paths(&mut builder, Ok(vec![])).unwrap();
    snapshot_builder_snapshot_hint_set_protocol(&mut builder, &NoStorage, &test_protocol())
        .unwrap();
    snapshot_builder_snapshot_hint_set_metadata(&mut builder, &test_metadata()).unwrap();
    assert!(snapshot_builder_snapshot_hint_finish(&mut builder, &NoStorage)
        .unwrap_err()
        .to_text()
        .contains("no log files"));
    assert!(matches!(builder.snapshot_hint, FfiSnapshotHintState::Absent));
}

#[test]
fn beginning_again_discards_what_was_supplied() {
    let mut builder = begun();
    snapshot_builder_snapshot_hint_set_metadata(&mut builder, &test_metadata()).unwrap();
    snapshot_builder_snapshot_hint_begin(&mut builder, 3, SNAPSHOT_HINT_VERSION_STATUS_LATEST)
        .unwrap();
    let FfiSnapshotHintState::Building(state) = builder.snapshot_hint else {
        panic!("expected a hint that was begun")
    };
    assert_eq!(state.version, 3);
    assert_eq!(state.version_status, SnapshotHintVersionStatus::Latest);
    assert!(state.metadata.is_none());
}

#[test]
fn refused_components_change_nothing() {
    let mut builder = begun();
    let mut value = test_protocol();
    value.min_reader_version = 0;
    let result =
        snapshot_builder_snapshot_hint_set_protocol(&mut builder, &NoStorage, &value);
    assert!(matches!(result, Err(Error::InvalidProtocol(_))));
    let mut value = test_metadata();
    value.schema_string = broken();
    let result = snapshot_builder_snapshot_hint_set_metadata(&mut builder, &value);
    assert!(matches!(result, Err(Error::Utf8Error(_))));
    let result = snapshot_builder_snapshot_hint_set_log_paths(
        &mut builder,
        Err(Error::InvalidLogPath("no version".to_string())),
    );
    assert!(matches!(result, Err(Error::InvalidSnapshotHint(m)) if m == "no version"));
    let mut value = test_last_checkpoint();
    value.size = -1;
    let result =
        snapshot_builder_snapshot_hint_set_last_checkpoint(&mut builder, &NoStorage, &value);
    assert!(matches!(result, Err(Error::InvalidCheckpoint(_))));
    let FfiSnapshotHintState::Building(state) = builder.snapshot_hint else {
        panic!("expected a hint that was begun")
    };
    assert!(state.metadata.is_none() && state.protocol.is_none());
    assert!(state.log_paths.is_none() && state.last_checkpoint_hint.is_none());
}

#[test]
fn invalid_log_paths_are_an_invalid_hint() {
    for mut builder in [begun(), new_builder()] {
        let backtraced = Error::Backtraced {
            source: Box::new(Error::InvalidLogPath("bad name".to_string())),
            backtrace: "somewhere".to_string(),
        };
        let errors = [
            (Error::InvalidLogPath("bad name".to_string()), "bad name"),
            (backtraced, "bad name"),
            (Error::Utf8Error("bad bytes".to_string()), "bad bytes"),
            (Error::InvalidUrl("bad".to_string()), "Invalid url: bad"),
        ];
        for (error, message) in errors {
            let result = snapshot_builder_snapshot_hint_set_log_paths(&mut builder, Err(error));
            assert_eq!(
                result.unwrap_err().to_text(),
                format!("Invalid snapshot hint: {message}")
            );
        }
    }
}

#[test]
fn components_need_a_hint_that_was_begun() {
    let mut builder = new_builder();
    let results = [
        snapshot_builder_snapshot_hint_set_log_paths(&mut builder, Ok(vec![])),
        snapshot_builder_snapshot_hint_set_protocol(&mut builder, &NoStorage, &test_protocol()),
        snapshot_builder_snapshot_hint_set_metadata(&mut builder, &test_metadata()),
        snapshot_builder_snapshot_hint_set_last_checkpoint(
            &mut builder,
            &NoStorage,
            &test_last_checkpoint(),
        ),
        snapshot_builder_snapshot_hint_set_crc(&mut builder, &plain_crc()),
        snapshot_builder_snapshot_hint_finish(&mut builder, &NoStorage),
    ];
    for result in results {
        assert_eq!(result.unwrap_err().to_text(), NOT_STARTED);
    }
}

#[test]
fn checksum_state_needs_metadata_and_protocol_first() {
    let mut builder = begun();
    let text = |builder: &mut FfiSnapshotBuilder| {
        snapshot_builder_snapshot_hint_set_crc(builder, &plain_crc())
            .unwrap_err()
            .to_text()
    };
    assert!(text(&mut builder).contains("metadata must be supplied before CRC"));
    snapshot_builder_snapshot_hint_set_metadata(&mut builder, &test_metadata()).unwrap();
    assert!(text(&mut builder).contains("protocol must be supplied before CRC"));
    snapshot_builder_snapshot_hint_set_protocol(&mut builder, &NoStorage, &test_protocol())
        .unwrap();
    assert!(snapshot_builder_snapshot_hint_set_crc(&mut builder, &plain_crc()).unwrap());
    snapshot_builder_snapshot_hint_set_last_checkpoint(
        &mut builder,
        &NoStorage,
        &test_last_checkpoint(),
    )
    .unwrap();
    let FfiSnapshotHintState::Building(state) = builder.snapshot_hint else {
        panic!("expected a hint that was begun")
    };
    let read = state.crc.unwrap();
    assert_eq!(read.metadata.id, "table-id");
    assert_eq!(read.protocol.min_writer_version, 2);
    assert_eq!(state.last_checkpoint_hint.unwrap().version, 5);
}

#[test]
fn inconsistent_checksum_state_is_an_invalid_hint() {
    let mut builder = begun();
    snapshot_builder_snapshot_hint_set_metadata(&mut builder, &test_metadata()).unwrap();
    snapshot_builder_snapshot_hint_set_protocol(&mut builder, &NoStorage, &test_protocol())
        .unwrap();
    let value = FfiSnapshotHintCrc {
        num_files: -1,
        ..plain_crc()
    };
    assert_eq!(
        snapshot_builder_snapshot_hint_set_crc(&mut builder, &value)
            .unwrap_err()
            .to_text(),
        "Invalid snapshot hint: CRC has invalid numFiles: expected a non-negative value, got -1"
    );
    let value = FfiSnapshotHintCrc {
        has_domain_metadata: true,
        domain_metadata: FfiSnapshotHintDomainMetadataArray {
            ptr: Some(vec![test_domain(true)]),
            len: 1,
        },
        ..plain_crc()
    };
    assert!(snapshot_builder_snapshot_hint_set_crc(&mut builder, &value)
        .unwrap_err()
        .to_text()
        .contains("tombstone"));
}

#[test]
fn text_is_decoded_from_utf8() {
    assert_eq!(string(&slice("h\u{e9}llo \u{1f980}")).unwrap(), "h\u{e9}llo \u{1f980}");
    let err = string(&broken()).unwrap_err();
    assert!(matches!(&err, Error::Utf8Error(_)));
    assert_eq!(err.to_text(), "invalid utf-8 sequence of 1 bytes from index 1");
}

#[test]
fn absent_values_are_not_looked_at() {
    let value = FfiOptionalString {
        has_value: false,
        value: broken(),
    };
    assert_eq!(optional_string(&value).unwrap(), None);
    let value = FfiOptionalString {
        has_value: true,
        value: slice("x"),
    };
    assert_eq!(optional_string(&value).unwrap(), Some("x".to_string()));
    assert_eq!(optional_i64(&none_i64()), None);
    let value = FfiOptionalI64 {
        has_value: true,
        value: -4,
    };
    assert_eq!(optional_i64(&value), Some(-4));
    assert_eq!(optional_usize(&none_u64()).unwrap(), None);
    let value = FfiOptionalU64 {
        has_value: true,
        value: 4,
    };
    assert_eq!(optional_usize(&value).unwrap(), Some(4));
    assert!(optional_string_map(&none_map()).unwrap().is_none());
}

fn map_of(entries: &[(&str, &str)]) -> FfiStringMap {
    FfiStringMap {
        ptr: Some(
            entries
                .iter()
                .map(|(k, v)| FfiStringMapEntry {
                    key: slice(k),
                    value: slice(v),
                })
                .collect(),
        ),
        len: entries.len(),
    }
}

#[test]
fn later_map_entries_win() {
    let map = string_map(&map_of(&[("a", "1"), ("b", "2"), ("a", "3")])).unwrap();
    assert_eq!(map.len(), 2);
    assert_eq!(map.get(&"a".to_string()).unwrap(), "3");
    let null = FfiStringMap { ptr: None, len: 2 };
    assert!(string_map(&null)
        .unwrap_err()
        .to_text()
        .contains("string map pointer is null with length 2"));
    let present = FfiOptionalStringMap {
        has_value: true,
        value: empty_map(),
    };
    assert_eq!(optional_string_map(&present).unwrap().unwrap().len(), 0);
}

#[test]
fn first_broken_string_is_reported() {
    let value = FfiStringArray {
        ptr: Some(vec![slice("ok"), broken(), KernelStringSlice { bytes: vec![0xff] }]),
        len: 3,
    };
    assert_eq!(
        strings(&value).unwrap_err().to_text(),
        "invalid utf-8 sequence of 1 bytes from index 1"
    );
    let value = FfiStringArray {
        ptr: Some(vec![slice("a"), slice("b")]),
        len: 2,
    };
    assert_eq!(strings(&value).unwrap(), vec!["a", "b"]);
}

#[test]
fn pointers_are_checked_for_null() {
    let none: Option<Vec<u8>> = None;
    assert_eq!(raw_slice(&none, 0, "x").unwrap(), &[] as &[u8]);
    assert!(raw_slice(&none, 2, "x").is_err());
    let some = Some(vec![1u8, 2]);
    assert_eq!(raw_slice(&some, 2, "x").unwrap(), &[1, 2]);
    assert_eq!(raw_slice(&some, 1, "x").unwrap(), &[1]);
    assert_eq!(raw_slice(&some, 0, "x").unwrap(), &[] as &[u8]);
    assert_eq!(
        raw_slice(&some, 5, "x").unwrap_err().to_text(),
        "Invalid snapshot hint: x pointer addresses fewer elements than length 5"
    );
    assert_eq!(required_ref(&Some(5), "x").unwrap(), &5);
    let null: Option<u8> = None;
    assert!(required_ref(&null, "x").is_err());
    assert_eq!(i64s(&integers(&[3, 4])).unwrap(), vec![3, 4]);
    let first = FfiI64Array {
        len: 1,
        ..integers(&[3, 4])
    };
    assert_eq!(i64s(&first).unwrap(), vec![3]);
    assert!(i64s(&FfiI64Array { ptr: None, len: 1 })
        .unwrap_err()
        .to_text()
        .contains("integer array pointer is null with length 1"));
}

#[test]
fn freshness_claims_are_integers() {
    assert_eq!(
        parse_version_status(SNAPSHOT_HINT_VERSION_STATUS_UNVERIFIED).unwrap(),
        SnapshotHintVersionStatus::Unverified
    );
    assert_eq!(
        parse_version_status(SNAPSHOT_HINT_VERSION_STATUS_LATEST).unwrap(),
        SnapshotHintVersionStatus::Latest
    );
    assert!(parse_version_status(2).is_err());
}

#[test]
fn components_report_their_broken_fields() {
    let mut value = test_transaction();
    value.app_id = broken();
    assert!(matches!(set_transaction(&value), Err(Error::Utf8Error(_))));
    assert!(domain_metadata(&test_domain(true)).unwrap().removed);
    assert_eq!(set_transaction(&test_transaction()).unwrap().last_updated, Some(123));
    let mut value = test_domain(false);
    value.configuration = broken();
    assert!(matches!(domain_metadata(&value), Err(Error::Utf8Error(_))));
    let mut value = test_sidecar();
    value.tags = FfiOptionalStringMap {
        has_value: true,
        value: FfiStringMap { ptr: None, len: 1 },
    };
    assert!(matches!(sidecar(&value), Err(Error::InvalidSnapshotHint(_))));
    let mut value = test_checkpoint_metadata();
    value.tags = FfiOptionalStringMap {
        has_value: true,
        value: map_of(&[("k", "v")]),
    };
    assert_eq!(checkpoint_metadata(&value).unwrap().tags.unwrap().len(), 1);
    let mut value = test_protocol();
    value.writer_features = FfiOptionalStringArray {
        has_value: true,
        value: FfiStringArray {
            ptr: Some(vec![slice("columnMapping")]),
            len: 1,
        },
    };
    let read = protocol(&NoStorage, &value).unwrap();
    assert_eq!(read.reader_features, None);
    assert_eq!(read.writer_features, Some(vec!["columnMapping".to_string()]));
}

#[test]
fn checkpoints_with_sidecars_keep_absent_lists_absent() {
    let mut value = test_v2();
    value.has_sidecar_files = false;
    value.has_non_file_actions = false;
    value.path = slice("name");
    let read = v2_checkpoint(&NoStorage, &value).unwrap();
    assert_eq!(read.path, "name");
    assert!(read.sidecar_files.is_none());
    assert!(read.non_file_actions.is_none());

    let mut value = test_v2();
    value.sidecar_files = FfiSnapshotHintSidecarArray { ptr: None, len: 1 };
    assert!(v2_checkpoint(&NoStorage, &value)
        .unwrap_err()
        .to_text()
        .contains("sidecar array pointer is null"));
    let mut value = test_v2();
    value.non_file_actions = FfiSnapshotHintActionArray { ptr: None, len: 1 };
    assert!(v2_checkpoint(&NoStorage, &value)
        .unwrap_err()
        .to_text()
        .contains("non-file action array pointer is null"));
    let mut value = test_v2();
    value.path = broken();
    assert!(matches!(
        v2_checkpoint(&NoStorage, &value),
        Err(Error::Utf8Error(_))
    ));
}

#[test]
fn metadata_fields_are_read() {
    let value = FfiSnapshotHintMetadata {
        name: FfiOptionalString {
            has_value: true,
            value: slice("name"),
        },
        format_options: map_of(&[("o", "1")]),
        partition_columns: FfiStringArray {
            ptr: Some(vec![slice("p")]),
            len: 1,
        },
        created_time: FfiOptionalI64 {
            has_value: true,
            value: 99,
        },
        configuration: map_of(&[("c", "2")]),
        ..test_metadata()
    };
    let read = metadata(&value).unwrap();
    assert_eq!(read.name.as_deref(), Some("name"));
    assert_eq!(read.description, None);
    assert_eq!(read.format_provider, "parquet");
    assert_eq!(read.format_options.get(&"o".to_string()).unwrap(), "1");
    assert_eq!(read.partition_columns, vec!["p"]);
    assert_eq!(read.created_time, Some(99));
    assert_eq!(read.configuration.get(&"c".to_string()).unwrap(), "2");
}
