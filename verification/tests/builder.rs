use std::cell::RefCell;
use std::sync::Arc;

use delta_snapshot::actions::{DeletionVectorDescriptor, Metadata, Protocol};
use delta_snapshot::crc::checksum::Crc;
use delta_snapshot::data::Data;
use delta_snapshot::error::Error;
use delta_snapshot::last_checkpoint::LastCheckpointHint;
use delta_snapshot::log_files::{
    FileMeta, LogPath, LogPathFileType, LogSegment, LogSegmentFiles, ParsedLogPath,
};
use delta_snapshot::snapshot::builder::{finish_build, SnapshotBuilder};
use delta_snapshot::snapshot::catalog::validate_catalog_managed_build_inputs;
use delta_snapshot::snapshot::engine::{Engine, TableFormat};
use delta_snapshot::snapshot::hint::invalid_snapshot_hint_from_log_segment_error;
use delta_snapshot::snapshot::replay::IncrementalReplay;
use delta_snapshot::snapshot::table_url::log_root;
use delta_snapshot::snapshot::types::{
    MetricId, Snapshot, SnapshotHint, SnapshotHintVersionStatus, SnapshotLoadMetricContext,
    SnapshotLoadType, SnapshotRef, TableConfiguration,
};

/// A token that is cancelled or not.
struct Token {
    cancelled: bool,
}

/// What a load was asked for.
#[derive(Debug, Clone, PartialEq)]
struct Request {
    call: &'static str,
    version: Option<u64>,
    built_as_latest: Option<bool>,
    tail: Vec<u64>,
    correlation_id: Option<String>,
    load_type: SnapshotLoadType,
    is_catalog_managed: bool,
    location: String,
}

/// A table in memory: its latest version, if any, and whether a catalog manages it. The tests look
/// at what a build makes of the errors that it gives.
struct MemoryEngine {
    latest: Option<u64>,
    catalog_managed: bool,
    schema: &'static str,
    requests: RefCell<Vec<Request>>,
}

fn memory_engine(latest: Option<u64>, catalog_managed: bool) -> MemoryEngine {
    MemoryEngine {
        latest,
        catalog_managed,
        schema: "{}",
        requests: RefCell::new(Vec::new()),
    }
}

fn commit(version: u64) -> ParsedLogPath {
    log_path(
        &format!("memory:///_delta_log/{version:020}.json"),
        version,
        LogPathFileType::Commit,
    )
}

fn staged_commit(version: u64) -> ParsedLogPath {
    log_path(
        &format!(
            "memory:///_delta_log/_staged_commits/{version:020}.11111111-1111-1111-1111-111111111111.json"
        ),
        version,
        LogPathFileType::StagedCommit,
    )
}

fn log_path(location: &str, version: u64, file_type: LogPathFileType) -> ParsedLogPath {
    ParsedLogPath {
        location: FileMeta {
            location: location.to_string(),
            last_modified: 123,
            size: 100,
        },
        version,
        file_type,
    }
}

fn tail(versions: &[u64]) -> Vec<LogPath> {
    versions.iter().map(|v| LogPath { path: commit(*v) }).collect()
}

fn segment_at(version: u64, log_directory: &str) -> LogSegment {
    LogSegment {
        end_version: version,
        checkpoint_version: None,
        log_root: log_directory.to_string(),
        listed: LogSegmentFiles {
            ascending_commit_files: (0..=version).map(commit).collect(),
            latest_commit_file: Some(commit(version)),
            max_published_version: Some(version),
            ..LogSegmentFiles::default()
        },
        last_checkpoint_metadata: None,
    }
}

impl MemoryEngine {
    fn protocol(&self) -> Protocol {
        Protocol {
            min_reader_version: 3,
            min_writer_version: 7,
            reader_features: Some(vec![]),
            writer_features: Some(if self.catalog_managed {
                vec!["catalogManaged".to_string()]
            } else {
                vec![]
            }),
        }
    }

    fn metadata(&self) -> Metadata {
        Metadata {
            id: "test-table-id".to_string(),
            schema_string: self.schema.to_string(),
            ..Metadata::default()
        }
    }

    fn snapshot(&self, table_root: &str, segment: LogSegment, latest: bool) -> Snapshot {
        Snapshot {
            table_configuration: TableConfiguration {
                metadata: self.metadata(),
                protocol: self.protocol(),
                table_root: table_root.to_string(),
                version: segment.end_version,
                catalog_managed: self.catalog_managed,
            },
            crc: Some(Arc::new(Crc {
                version: segment.end_version,
                metadata: self.metadata(),
                protocol: self.protocol(),
                ..Crc::default()
            })),
            log_segment: segment,
            built_as_latest: latest,
        }
    }

    fn record(
        &self,
        call: &'static str,
        location: &str,
        version: Option<u64>,
        built_as_latest: Option<bool>,
        log_tail: &[ParsedLogPath],
        context: &SnapshotLoadMetricContext,
    ) {
        self.requests.borrow_mut().push(Request {
            call,
            version,
            built_as_latest,
            tail: log_tail.iter().map(|p| p.version).collect(),
            correlation_id: context.correlation_id.clone(),
            load_type: context.load_type,
            is_catalog_managed: context.is_catalog_managed,
            location: location.to_string(),
        });
    }
}

impl TableFormat for MemoryEngine {
    fn parse_table_root(&self, table_root: &String) -> Result<String, Error> {
        if table_root.contains("://") {
            Ok(table_root.clone())
        } else {
            Err(Error::InvalidLogPath(format!("bad table root {table_root}")))
        }
    }

    fn validate_log_path_fields(&self, files: &LogSegmentFiles) -> Result<(), Error> {
        for path in files.ascending_commit_files.iter().chain(files.latest_commit_file.iter()) {
            let name = path.location.location.rsplit('/').next().unwrap();
            if !name.starts_with(&format!("{:020}", path.version)) {
                return Err(Error::InvalidLogPath(name.to_string()));
            }
        }
        Ok(())
    }

    fn log_segment(
        &self,
        files: LogSegmentFiles,
        log_root: String,
        end_version: Option<u64>,
        last_checkpoint: Option<LastCheckpointHint>,
    ) -> Result<LogSegment, Error> {
        let commits = &files.ascending_commit_files;
        for pair in commits.windows(2) {
            if pair[0].version + 1 != pair[1].version {
                return Err(Error::Backtraced {
                    source: Box::new(Error::Generic("Expected contiguous commit files".to_string())),
                    backtrace: "somewhere".to_string(),
                });
            }
        }
        let checkpoint_version = files.checkpoint_parts.first().map(|p| p.version);
        let last = commits.last().map(|p| p.version).or(checkpoint_version).unwrap_or(0);
        if let Some(latest) = &files.latest_commit_file {
            if latest.version != last {
                return Err(Error::InternalError(format!(
                    "latest_commit_file version {} does not match end_version {last}",
                    latest.version
                )));
            }
            let known = commits.is_empty() || latest.same(commits.last().unwrap());
            if latest.file_type != LogPathFileType::Commit && !known {
                return Err(Error::InvalidCheckpoint("latest_commit_file".to_string()));
            }
        }
        if end_version != Some(last) {
            return Err(Error::Generic(format!("LogSegment end version {last}")));
        }
        Ok(LogSegment {
            end_version: last,
            checkpoint_version,
            log_root,
            listed: files,
            last_checkpoint_metadata: last_checkpoint,
        })
    }

    fn catalog_managed(
        &self,
        metadata: &Metadata,
        protocol: &Protocol,
        _table_root: &String,
        _version: u64,
    ) -> Result<bool, Error> {
        if metadata.schema_string.contains("timestamp_ntz") {
            return Err(Error::Unsupported(
                "Table does not have the required 'timestampNtz' feature".to_string(),
            ));
        }
        Ok(protocol.has_table_feature("catalogManaged"))
    }

    fn check_snapshot(
        &self,
        _log_segment: &LogSegment,
        _table_configuration: &TableConfiguration,
        _crc: &Option<Arc<Crc>>,
    ) -> Result<(), Error> {
        Ok(())
    }

    fn check_protocol(&self, _protocol: &Protocol) -> Result<(), Error> {
        Ok(())
    }

    fn check_deletion_vector(
        &self,
        _deletion_vector: &DeletionVectorDescriptor,
    ) -> Result<(), Error> {
        Ok(())
    }

    fn check_last_checkpoint(&self, _hint: &LastCheckpointHint) -> Result<(), Error> {
        Ok(())
    }

    fn sort_log_paths(&self, _version: u64, _paths: Vec<LogPath>) -> Result<LogSegmentFiles, Error> {
        Ok(LogSegmentFiles::default())
    }
}

impl Engine for MemoryEngine {
    type Token = Token;

    fn list_log_segment(
        &self,
        log_root: &String,
        log_tail: Vec<ParsedLogPath>,
        end_version: Option<u64>,
        context: &SnapshotLoadMetricContext,
        token: &Option<Token>,
    ) -> Result<LogSegment, Error> {
        self.record("list", log_root, end_version, None, &log_tail, context);
        if token.as_ref().map_or(false, |t| t.cancelled) {
            return Err(Error::Cancelled);
        }
        match self.latest {
            None => Err(Error::Generic("No files in log segment".to_string())),
            Some(latest) => Ok(segment_at(end_version.unwrap_or(latest), log_root)),
        }
    }

    fn load_snapshot(
        &self,
        table_root: String,
        log_segment: LogSegment,
        context: &SnapshotLoadMetricContext,
        _replay: IncrementalReplay,
        built_as_latest: bool,
    ) -> Result<Snapshot, Error> {
        self.record("load", &table_root, None, Some(built_as_latest), &[], context);
        if self.schema.contains("interval") {
            return Err(Error::Generic(
                "Unsupported Delta table type: 'interval year to second'".to_string(),
            ));
        }
        Ok(self.snapshot(&table_root, log_segment, built_as_latest))
    }

    fn update_snapshot(
        &self,
        existing: SnapshotRef,
        log_tail: Vec<ParsedLogPath>,
        version: Option<u64>,
        context: &SnapshotLoadMetricContext,
        _replay: IncrementalReplay,
        built_as_latest: bool,
        _token: &Option<Token>,
    ) -> Result<SnapshotRef, Error> {
        self.record("update", "", version, Some(built_as_latest), &log_tail, context);
        let target = version.or(self.latest).unwrap();
        if target < existing.version() {
            return Err(Error::Generic("Requested snapshot version is older".to_string()));
        }
        let segment = segment_at(target, &existing.log_segment.log_root);
        Ok(Arc::new(self.snapshot(
            &existing.table_configuration.table_root,
            segment,
            built_as_latest,
        )))
    }
}

const ROOT: &str = "memory:///";

fn builder() -> SnapshotBuilder<Token> {
    SnapshotBuilder::new_for(ROOT, MetricId { id: 7 })
}

fn builder_from(snapshot: SnapshotRef) -> SnapshotBuilder<Token> {
    SnapshotBuilder::new_from(snapshot, MetricId { id: 8 })
}

fn hint_from_snapshot(snapshot: &Snapshot, status: SnapshotHintVersionStatus) -> SnapshotHint {
    SnapshotHint {
        version: snapshot.version(),
        log_segment_files: snapshot.log_segment.listed.dup(),
        protocol: snapshot.table_configuration.protocol.dup(),
        metadata: snapshot.table_configuration.metadata.dup(),
        last_checkpoint_hint: snapshot.log_segment.last_checkpoint_metadata.dup(),
        crc: snapshot.crc.dup(),
        version_status: status,
    }
}

fn snapshot_and_hint(status: SnapshotHintVersionStatus) -> (MemoryEngine, SnapshotRef, SnapshotHint) {
    let engine = memory_engine(Some(1), false);
    let snapshot = builder().build(&engine).unwrap();
    let hint = hint_from_snapshot(&snapshot, status);
    engine.requests.borrow_mut().clear();
    (engine, snapshot, hint)
}

fn hint_error(builder: SnapshotBuilder<Token>, hint: SnapshotHint, engine: &MemoryEngine) -> Error {
    builder.with_snapshot_hint(hint).build(engine).unwrap_err()
}

#[test]
fn complete_snapshot_hint_matches_storage_snapshot_without_child_loads() {
    for (status, latest) in [
        (SnapshotHintVersionStatus::Latest, true),
        (SnapshotHintVersionStatus::Unverified, false),
    ] {
        let (engine, storage, hint) = snapshot_and_hint(status);
        assert!(storage.crc.is_some());
        let hinted = builder()
            .with_snapshot_hint(hint)
            .with_correlation_id("hint-request".to_string())
            .with_cancellation_token(Some(Token { cancelled: true }))
            .build(&engine)
            .unwrap();
        assert_eq!(hinted.version(), storage.version());
        assert!(hinted.table_configuration.same(&storage.table_configuration));
        assert!(hinted.log_segment.same(&storage.log_segment));
        assert!(hinted.crc.same(&storage.crc));
        assert_eq!(hinted.is_built_as_latest(), latest);
        assert!(engine.requests.borrow().is_empty());
    }
}

#[test]
fn complete_snapshot_hint_without_crc_succeeds() {
    let (engine, _, mut hint) = snapshot_and_hint(SnapshotHintVersionStatus::Unverified);
    hint.crc = None;
    let hinted = builder().with_snapshot_hint(hint).build(&engine).unwrap();
    assert!(hinted.crc.is_none());
}

#[test]
fn complete_snapshot_hint_preserves_checkpoint_state() {
    let (engine, _, mut hint) = snapshot_and_hint(SnapshotHintVersionStatus::Unverified);
    let part = log_path(
        "memory:///_delta_log/00000000000000000001.checkpoint.parquet",
        1,
        LogPathFileType::SinglePartCheckpoint,
    );
    hint.log_segment_files.checkpoint_parts = vec![part.dup()];
    hint.log_segment_files.ascending_commit_files.clear();
    hint.log_segment_files.latest_commit_file = None;
    let hinted = builder().with_snapshot_hint(hint).build(&engine).unwrap();
    assert_eq!(hinted.log_segment.checkpoint_version, Some(1));
    assert!(hinted.log_segment.listed.checkpoint_parts[0].same(&part));
}

#[test]
fn snapshot_hint_rejects_staged_commit_without_catalog_version() {
    let (engine, _, mut hint) = snapshot_and_hint(SnapshotHintVersionStatus::Unverified);
    hint.version = 0;
    hint.crc = None;
    hint.last_checkpoint_hint = None;
    hint.log_segment_files = LogSegmentFiles {
        ascending_commit_files: vec![staged_commit(0)],
        latest_commit_file: Some(staged_commit(0)),
        ..LogSegmentFiles::default()
    };
    let err = hint_error(builder(), hint, &engine);
    assert!(matches!(err, Error::MaxCatalogVersion(_)));
}

#[test]
fn snapshot_hint_rejects_published_version_after_hint_version() {
    let (engine, _, mut hint) = snapshot_and_hint(SnapshotHintVersionStatus::Unverified);
    hint.log_segment_files.max_published_version = Some(u64::MAX);
    let err = hint_error(builder(), hint, &engine);
    assert!(matches!(err, Error::InvalidSnapshotHint(_)));
}

#[test]
fn snapshot_hint_rejects_malformed_log_segment_and_incompatible_table_state() {
    let (engine, _, hint) = snapshot_and_hint(SnapshotHintVersionStatus::Unverified);

    let mut gapped = hint.dup();
    gapped.log_segment_files.ascending_commit_files[1] = commit(3);
    let err = hint_error(builder(), gapped, &engine);
    assert_eq!(
        err.to_text(),
        "Invalid snapshot hint: Expected contiguous commit files"
    );

    let mut inconsistent_path = hint.dup();
    inconsistent_path.log_segment_files.ascending_commit_files[0].version = 1;
    let err = hint_error(builder(), inconsistent_path, &engine);
    assert!(matches!(err, Error::InvalidLogPath(_)));

    let mut compacted = hint.dup();
    compacted.log_segment_files.ascending_compaction_files.push(log_path(
        "memory:///_delta_log/00000000000000000000.00000000000000000001.compacted.json",
        0,
        LogPathFileType::CompactedCommit { hi: 1 },
    ));
    let err = hint_error(builder(), compacted, &engine);
    assert!(matches!(err, Error::Unsupported(_)));

    let mut incompatible = hint;
    incompatible.metadata.schema_string = "timestamp_ntz".to_string();
    let err = hint_error(builder(), incompatible, &engine);
    assert!(matches!(
        err,
        Error::Unsupported(m) if m == "Table does not have the required 'timestampNtz' feature"
    ));
}

#[test]
fn snapshot_hint_rejects_checkpoint_free_history_not_starting_at_version_zero() {
    let (engine, _, mut hint) = snapshot_and_hint(SnapshotHintVersionStatus::Unverified);
    hint.crc = None;
    hint.log_segment_files.ascending_commit_files.remove(0);
    let err = hint_error(builder(), hint, &engine);
    assert!(matches!(&err, Error::InvalidSnapshotHint(_)));
    assert!(err
        .to_text()
        .contains("snapshot history does not start at version 0"));
}

#[test]
fn snapshot_hint_requires_latest_commit_file_when_commits_are_supplied() {
    let (engine, _, mut hint) = snapshot_and_hint(SnapshotHintVersionStatus::Unverified);
    hint.log_segment_files.latest_commit_file = None;
    let err = hint_error(builder(), hint, &engine);
    assert!(matches!(&err, Error::InvalidSnapshotHint(_)));
    assert!(err
        .to_text()
        .contains("latest_commit_file is required when commits are supplied"));
}

#[test]
fn snapshot_hint_rejects_latest_commit_with_wrong_kind_or_identity() {
    let (engine, _, hint) = snapshot_and_hint(SnapshotHintVersionStatus::Unverified);
    let invalid = [
        log_path(
            "memory:///_delta_log/00000000000000000001.checkpoint.parquet",
            1,
            LogPathFileType::SinglePartCheckpoint,
        ),
        staged_commit(1),
    ];
    for latest in invalid {
        let mut malformed = hint.dup();
        malformed.log_segment_files.latest_commit_file = Some(latest);
        let err = hint_error(builder(), malformed, &engine);
        assert!(matches!(err, Error::InvalidSnapshotHint(_)));
    }
}

#[test]
fn snapshot_hint_internal_log_invariant_is_reported_without_kernel_bug_wording() {
    let (engine, _, mut hint) = snapshot_and_hint(SnapshotHintVersionStatus::Unverified);
    hint.log_segment_files.latest_commit_file = Some(commit(0));
    let err = hint_error(builder(), hint, &engine);
    let Error::InvalidSnapshotHint(message) = err else {
        panic!("expected InvalidSnapshotHint")
    };
    assert!(message.contains("latest_commit_file version 0 does not match end_version 1"));
    assert!(!message.contains("kernel bug"));
}

#[test]
fn snapshot_hint_rejects_mismatched_crc_state() {
    let (engine, _, hint) = snapshot_and_hint(SnapshotHintVersionStatus::Unverified);
    let matching = hint.crc.as_ref().unwrap();

    let mut wrong_version = hint.dup();
    wrong_version.crc = Some(Arc::new(Crc {
        version: hint.version - 1,
        ..matching.as_ref().dup()
    }));
    let err = hint_error(builder(), wrong_version, &engine);
    assert_eq!(
        err.to_text(),
        "Invalid snapshot hint: CRC version 0 does not match snapshot hint version 1"
    );

    let mut wrong_protocol = hint.dup();
    wrong_protocol.crc = Some(Arc::new(Crc {
        protocol: Protocol {
            min_reader_version: 1,
            min_writer_version: 1,
            reader_features: None,
            writer_features: None,
        },
        ..matching.as_ref().dup()
    }));
    let err = hint_error(builder(), wrong_protocol, &engine);
    assert!(err.to_text().contains("CRC protocol does not match"));

    let mut wrong_metadata = hint.dup();
    wrong_metadata.crc = Some(Arc::new(Crc {
        metadata: Metadata::default(),
        ..matching.as_ref().dup()
    }));
    let err = hint_error(builder(), wrong_metadata, &engine);
    assert!(err.to_text().contains("CRC metadata does not match"));
}

#[test]
fn snapshot_hint_rejects_conflicting_builder_options_and_reports_failure() {
    let (engine, snapshot, hint) = snapshot_and_hint(SnapshotHintVersionStatus::Unverified);
    let text = |b: SnapshotBuilder<Token>| hint_error(b, hint.dup(), &engine).to_text();

    assert!(text(builder().at_version(hint.version - 1))
        .contains("does not match snapshot hint version"));
    assert!(text(builder().with_log_tail(tail(&[1]))).contains("cannot be combined with a log tail"));
    assert!(text(builder_from(snapshot)).contains("cannot be used with Snapshot::builder_from"));
    assert!(
        text(builder().with_incremental_crc_replay(IncrementalReplay::UpToCommits(0)))
            .contains("cannot be combined with incremental CRC replay")
    );
    assert!(text(builder().with_max_catalog_version(hint.version))
        .contains("must not be set for a non-catalog-managed table"));

    let err = hint_error(
        builder().with_max_catalog_version(hint.version + 1),
        hint.dup(),
        &engine,
    );
    assert!(matches!(err, Error::MaxCatalogVersion(_)));
    let b = builder().with_max_catalog_version(2).with_snapshot_hint(hint.dup());
    assert_eq!(b.load_type(), SnapshotLoadType::SnapshotHint);
    assert!(b.build(&engine).is_err());
}

#[test]
fn snapshot_hint_version_must_match_log_segment_end_version() {
    let (engine, _, mut hint) = snapshot_and_hint(SnapshotHintVersionStatus::Unverified);
    hint.version -= 1;
    hint.crc = None;
    let err = hint_error(builder(), hint, &engine);
    assert_eq!(
        err.to_text(),
        "Invalid snapshot hint: LogSegment end version 1"
    );
}

#[test]
fn time_travel_snapshot_hint_accepts_later_max_catalog_version() {
    let engine = memory_engine(Some(1), true);
    let snapshot = builder().with_max_catalog_version(1).build(&engine).unwrap();
    let hint = hint_from_snapshot(&snapshot, SnapshotHintVersionStatus::Unverified);

    let err = hint_error(builder(), hint.dup(), &engine);
    assert!(err.to_text().contains("Max catalog version is required"));

    let latest = builder()
        .with_max_catalog_version(1)
        .with_snapshot_hint(hint.dup())
        .build(&engine)
        .unwrap();
    assert_eq!(latest.version(), 1);
    assert!(!latest.is_built_as_latest());

    let hinted = builder()
        .at_version(1)
        .with_max_catalog_version(2)
        .with_snapshot_hint(hint)
        .build(&engine)
        .unwrap();
    assert_eq!(hinted.version(), 1);
    assert!(!hinted.is_built_as_latest());
}

#[test]
fn test_snapshot_builder() {
    let engine = memory_engine(Some(1), false);
    let snapshot = builder().build(&engine).unwrap();
    assert_eq!(snapshot.version(), 1);
    assert!(snapshot.is_built_as_latest());
    let snapshot = builder().at_version(0).build(&engine).unwrap();
    assert_eq!(snapshot.version(), 0);
    assert!(!snapshot.is_built_as_latest());
}

#[test]
fn test_snapshot_with_unsupported_type() {
    let mut engine = memory_engine(Some(0), false);
    engine.schema = "interval year to second";
    let err = builder().build(&engine).unwrap_err();
    assert!(matches!(
        err,
        Error::Generic(m) if m == "Unsupported Delta table type: 'interval year to second'"
    ));
}

#[test]
fn empty_log_fails_a_full_load() {
    let engine = memory_engine(None, false);
    assert!(builder().build(&engine).is_err());
    let requests = engine.requests.borrow();
    assert_eq!(requests.len(), 1);
    assert_eq!(requests[0].load_type, SnapshotLoadType::Full);
}

#[test]
fn existing_snapshot_is_brought_to_the_latest_version() {
    let engine = memory_engine(Some(1), false);
    let snap_v0 = builder().at_version(0).build(&engine).unwrap();
    engine.requests.borrow_mut().clear();
    let snap_v1 = builder_from(snap_v0).build(&engine).unwrap();
    assert_eq!(snap_v1.version(), 1);
    let requests = engine.requests.borrow();
    assert_eq!(requests.len(), 1);
    assert_eq!(requests[0].call, "update");
    assert_eq!(requests[0].load_type, SnapshotLoadType::Incremental);
    assert_eq!(requests[0].built_as_latest, Some(true));
}

#[test]
fn update_to_an_earlier_version_fails() {
    let engine = memory_engine(Some(1), false);
    let snap_v1 = builder().build(&engine).unwrap();
    assert!(builder_from(snap_v1).at_version(0).build(&engine).is_err());
}

#[test]
fn snapshot_build_and_child_events_carry_correlation_id() {
    for id in [Some("req-abc-123"), None] {
        let engine = memory_engine(Some(1), false);
        let b = match id {
            Some(id) => builder().with_correlation_id(id.to_string()),
            None => builder(),
        };
        b.build(&engine).unwrap();
        let requests = engine.requests.borrow();
        assert_eq!(requests.len(), 2);
        for request in requests.iter() {
            assert_eq!(request.correlation_id.as_deref(), id);
        }
    }
}

#[test]
fn empty_correlation_id_is_as_none() {
    let engine = memory_engine(Some(0), false);
    let b = builder()
        .with_correlation_id("x".to_string())
        .with_correlation_id(String::new());
    b.build(&engine).unwrap();
    assert_eq!(engine.requests.borrow()[0].correlation_id, None);
}

#[test]
fn test_staged_commits_without_max_catalog_version_errors() {
    let engine = memory_engine(Some(0), true);
    let result = builder()
        .with_log_tail(vec![LogPath { path: staged_commit(1) }])
        .build(&engine);
    assert!(matches!(result, Err(Error::MaxCatalogVersion(_))));
}

#[test]
fn test_version_exceeds_max_catalog_version_errors() {
    let engine = memory_engine(Some(0), true);
    let result = builder().at_version(5).with_max_catalog_version(3).build(&engine);
    assert!(matches!(result, Err(Error::MaxCatalogVersion(_))));
    assert!(engine.requests.borrow().is_empty());
}

#[test]
fn test_log_tail_last_version_mismatch_errors() {
    let engine = memory_engine(Some(2), true);
    let result = builder()
        .with_log_tail(tail(&[1, 2]))
        .with_max_catalog_version(3)
        .build(&engine);
    assert!(matches!(result, Err(Error::MaxCatalogVersion(_))));
}

#[test]
fn test_catalog_managed_table_without_max_catalog_version_errors() {
    let engine = memory_engine(Some(0), true);
    let result = builder().build(&engine);
    assert!(matches!(result, Err(Error::MaxCatalogVersion(_))));
}

#[test]
fn test_non_catalog_managed_table_with_max_catalog_version_errors() {
    let engine = memory_engine(Some(0), false);
    let result = builder().with_max_catalog_version(0).build(&engine);
    assert!(matches!(result, Err(Error::MaxCatalogVersion(_))));
}

#[test]
fn test_log_tail_last_version_less_than_time_travel_version_errors() {
    let engine = memory_engine(Some(1), true);
    let result = builder()
        .at_version(2)
        .with_log_tail(tail(&[1]))
        .with_max_catalog_version(3)
        .build(&engine);
    assert!(matches!(result, Err(Error::MaxCatalogVersion(_))));
}

#[test]
fn test_max_catalog_version_as_effective_version() {
    let engine = memory_engine(Some(2), true);
    let snapshot = builder().with_max_catalog_version(1).build(&engine).unwrap();
    assert_eq!(snapshot.version(), 1);
    let requests = engine.requests.borrow();
    assert_eq!(requests[0].version, Some(1));
    assert!(requests[0].is_catalog_managed);
}

#[test]
fn test_time_travel_with_max_catalog_version() {
    let engine = memory_engine(Some(1), true);
    let snapshot = builder()
        .at_version(0)
        .with_max_catalog_version(1)
        .build(&engine)
        .unwrap();
    assert_eq!(snapshot.version(), 0);
}

#[test]
fn test_builder_from_catalog_managed_without_mcv_errors() {
    let engine = memory_engine(Some(1), true);
    let initial = builder().with_max_catalog_version(1).build(&engine).unwrap();
    let result = builder_from(initial).build(&engine);
    assert!(matches!(result, Err(Error::MaxCatalogVersion(_))));
}

#[test]
fn test_non_contiguous_log_tail_errors() {
    for (versions, mcv) in [(vec![1, 3], 3), (vec![1, 1], 1), (vec![2, 1], 2)] {
        let engine = memory_engine(Some(3), true);
        let result = builder()
            .with_log_tail(tail(&versions))
            .with_max_catalog_version(mcv)
            .build(&engine);
        assert!(matches!(
            result,
            Err(Error::LogTailVersionsNotContiguous { .. })
        ));
    }
}

#[test]
fn first_gap_of_the_log_tail_is_reported() {
    let paths = vec![commit(4), commit(5), commit(9), commit(11)];
    let err = validate_catalog_managed_build_inputs(None, None, &paths).unwrap_err();
    assert!(matches!(
        err,
        Error::LogTailVersionsNotContiguous {
            first_version: 5,
            second_version: 9
        }
    ));
    let wrapped = vec![commit(u64::MAX), commit(0)];
    assert!(validate_catalog_managed_build_inputs(None, None, &wrapped).is_err());
}

#[test]
fn log_tail_is_handed_to_the_engine() {
    let engine = memory_engine(Some(3), true);
    let snapshot = builder()
        .with_log_tail(tail(&[2, 3]))
        .with_max_catalog_version(3)
        .build(&engine)
        .unwrap();
    assert_eq!(snapshot.version(), 3);
    assert!(snapshot.is_built_as_latest());
    let requests = engine.requests.borrow();
    assert_eq!(requests[0].tail, vec![2, 3]);
    assert_eq!(requests[0].location, "memory:///_delta_log/");
    assert_eq!(requests[1].location, "memory:///");
}

#[test]
fn version_equal_to_max_catalog_version_is_latest() {
    let engine = memory_engine(Some(3), true);
    let snapshot = builder()
        .at_version(2)
        .with_max_catalog_version(2)
        .build(&engine)
        .unwrap();
    assert!(snapshot.is_built_as_latest());
    let snapshot = builder()
        .at_version(2)
        .with_max_catalog_version(3)
        .build(&engine)
        .unwrap();
    assert!(!snapshot.is_built_as_latest());
}

#[test]
fn cancelled_listing_fails_the_build() {
    let engine = memory_engine(Some(0), false);
    let result = builder()
        .with_cancellation_token(Some(Token { cancelled: true }))
        .build(&engine);
    assert!(matches!(result, Err(Error::Cancelled)));
    let result = builder()
        .with_cancellation_token(Some(Token { cancelled: false }))
        .build(&engine);
    assert!(result.is_ok());
}

#[test]
fn table_roots_that_are_no_url_are_rejected() {
    let engine = memory_engine(Some(0), false);
    let b: SnapshotBuilder<Token> = SnapshotBuilder::new_for("nowhere", MetricId { id: 1 });
    assert!(matches!(b.build(&engine), Err(Error::InvalidLogPath(_))));
    let b: SnapshotBuilder<Token> = SnapshotBuilder::new_for("data://[", MetricId { id: 1 });
    assert!(matches!(b.build(&engine), Err(Error::InvalidUrl(_))));
}

#[test]
fn log_directory_lies_below_the_table() {
    let root = |text: &str| log_root(&text.to_string());
    assert_eq!(root("file:///a/b/").unwrap(), "file:///a/b/_delta_log/");
    assert_eq!(root("file:///a/b").unwrap(), "file:///a/_delta_log/");
    assert!(matches!(root("a/b"), Err(Error::InvalidUrl(_))));
}

#[test]
fn targets_and_paths_are_shown_in_logs() {
    assert_eq!(builder().target_version_str(), "LATEST");
    assert_eq!(builder().at_version(5).target_version_str(), "5");
    let catalog = || builder().with_max_catalog_version(12);
    assert_eq!(catalog().target_version_str(), "12 (max_catalog_version)");
    assert_eq!(
        catalog().at_version(10).target_version_str(),
        "10 (max_catalog_version=12)"
    );
    assert_eq!(builder().table_path(), ROOT);
    let engine = memory_engine(Some(0), false);
    let snapshot = builder().build(&engine).unwrap();
    assert_eq!(builder_from(snapshot).table_path(), ROOT);
    assert_eq!(builder().load_type(), SnapshotLoadType::Full);
}

#[test]
fn options_are_shown_without_the_token() {
    let b = builder()
        .at_version(4)
        .with_log_tail(tail(&[4]))
        .with_incremental_crc_replay(IncrementalReplay::Unlimited)
        .with_correlation_id("id".to_string())
        .with_cancellation_token(Some(Token { cancelled: false }));
    let shown = b.shown();
    assert_eq!(shown.table_root.as_deref(), Some(ROOT));
    assert!(shown.existing_snapshot.is_none());
    assert_eq!(shown.version, Some(4));
    assert_eq!(shown.log_tail.len(), 1);
    assert_eq!(shown.max_catalog_version, None);
    assert_eq!(shown.incremental_replay, IncrementalReplay::Unlimited);
    assert!(shown.snapshot_hint.is_none());
    assert_eq!(shown.operation_id, MetricId { id: 7 });
    assert_eq!(shown.correlation_id.as_deref(), Some("id"));
    assert!(shown.cancellable);
    assert!(!builder().shown().cancellable);
    assert!(format!("{shown:?}").contains("cancellable: true"));
}

#[test]
fn replay_budget_counts_commits() {
    let advance = |mode: IncrementalReplay| mode.should_advance(95, 100).unwrap();
    assert!(advance(IncrementalReplay::UpToCommits(5)));
    assert!(!advance(IncrementalReplay::UpToCommits(4)));
    assert!(advance(IncrementalReplay::Unlimited));
    assert!(!advance(IncrementalReplay::Disabled));
    assert!(!advance(IncrementalReplay::UpToCommits(0)));
    assert_eq!(IncrementalReplay::default(), IncrementalReplay::Disabled);
    assert_eq!(
        IncrementalReplay::Unlimited
            .should_advance(101, 100)
            .unwrap_err()
            .to_text(),
        "Internal error CRC version 101 is ahead of target version 100. This is a kernel bug, please report."
    );
}

#[test]
fn log_segment_errors_keep_their_bare_message() {
    let bare = [
        Error::Generic("m".to_string()),
        Error::InternalError("m".to_string()),
        Error::InvalidCheckpoint("m".to_string()),
        Error::InvalidLogPath("m".to_string()),
        Error::InvalidSnapshotHint("m".to_string()),
    ];
    for error in bare {
        let wrapped = Error::Backtraced {
            source: Box::new(error),
            backtrace: "at line 1".to_string(),
        };
        let err = invalid_snapshot_hint_from_log_segment_error(wrapped);
        assert!(matches!(err, Error::InvalidSnapshotHint(m) if m == "m"));
    }
    let err = invalid_snapshot_hint_from_log_segment_error(Error::Unsupported("m".to_string()));
    assert!(matches!(err, Error::InvalidSnapshotHint(m) if m == "Unsupported: m"));
}

#[test]
fn finished_build_is_checked_against_the_catalog() {
    let engine = memory_engine(Some(0), true);
    let snapshot = builder().with_max_catalog_version(0).build(&engine).unwrap();
    assert!(finish_build(Ok(snapshot.clone()), Some(9)).is_ok());
    assert!(finish_build(Ok(snapshot), None).is_err());
    assert!(matches!(
        finish_build(Err(Error::Cancelled), None),
        Err(Error::Cancelled)
    ));
}
