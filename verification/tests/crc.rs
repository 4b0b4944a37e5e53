use std::sync::Arc;

use delta_snapshot::actions::{
    Add, DeletionVectorDescriptor, DomainMetadata, Metadata, Protocol, SetTransaction,
};
use delta_snapshot::crc::checksum::Crc;
use delta_snapshot::crc::deleted_records::{
    deleted_record_count_bin, DeletedRecordCountsHistogram,
};
use delta_snapshot::crc::file_size_histogram::{
    de_validated_file_size_histogram, FileSizeHistogram, FileSizeHistogramRaw,
};
use delta_snapshot::crc::file_stats::FileStats;
use delta_snapshot::crc::raw::{CrcAddRaw, CrcDeletionVectorRaw, CrcRaw};
use delta_snapshot::crc::state::{DomainMetadataState, FileStatsState, SetTransactionState};
use delta_snapshot::crc::sums::checked_sum;
use delta_snapshot::data::Data;
use delta_snapshot::error::Error;
use delta_snapshot::last_checkpoint::LastCheckpointHint;
use delta_snapshot::log_files::{LogPath, LogSegment, LogSegmentFiles};
use delta_snapshot::snapshot::engine::TableFormat;
use delta_snapshot::snapshot::types::TableConfiguration;
use delta_snapshot::string_map::StringMap;

/// A table format that knows protocols and deletion vectors only. It refuses a deletion vector
/// with a negative offset.
struct Format;

impl TableFormat for Format {
    fn parse_table_root(&self, _table_root: &String) -> Result<String, Error> {
        unreachable!()
    }

    fn validate_log_path_fields(&self, _files: &LogSegmentFiles) -> Result<(), Error> {
        unreachable!()
    }

    fn log_segment(
        &self,
        _files: LogSegmentFiles,
        _log_root: String,
        _end_version: Option<u64>,
        _last_checkpoint: Option<LastCheckpointHint>,
    ) -> Result<LogSegment, Error> {
        unreachable!()
    }

    fn catalog_managed(
        &self,
        _metadata: &Metadata,
        _protocol: &Protocol,
        _table_root: &String,
        _version: u64,
    ) -> Result<bool, Error> {
        unreachable!()
    }

    fn check_snapshot(
        &self,
        _log_segment: &LogSegment,
        _table_configuration: &TableConfiguration,
        _crc: &Option<Arc<Crc>>,
    ) -> Result<(), Error> {
        unreachable!()
    }

    fn check_protocol(&self, _protocol: &Protocol) -> Result<(), Error> {
        Ok(())
    }

    fn check_deletion_vector(
        &self,
        deletion_vector: &DeletionVectorDescriptor,
    ) -> Result<(), Error> {
        match deletion_vector.offset {
            Some(offset) if offset < 0 => Err(Error::Other(format!("offset {offset}"))),
            _ => Ok(()),
        }
    }

    fn check_last_checkpoint(&self, _hint: &LastCheckpointHint) -> Result<(), Error> {
        unreachable!()
    }

    fn sort_log_paths(&self, _version: u64, _paths: Vec<LogPath>) -> Result<LogSegmentFiles, Error> {
        unreachable!()
    }
}

fn read(raw: CrcRaw, version: u64) -> Result<Crc, Error> {
    Crc::try_from_raw(&Format, raw, version)
}

fn valid_protocol() -> Protocol {
    Protocol {
        min_reader_version: 1,
        min_writer_version: 1,
        reader_features: None,
        writer_features: None,
    }
}

fn test_metadata() -> Metadata {
    Metadata {
        id: "test".to_string(),
        schema_string: "{\"type\":\"struct\",\"fields\":[]}".to_string(),
        created_time: Some(0),
        ..Metadata::default()
    }
}

fn crc_with(
    set_transaction_state: SetTransactionState,
    domain_metadata_state: DomainMetadataState,
) -> Crc {
    Crc {
        protocol: valid_protocol(),
        set_transaction_state,
        domain_metadata_state,
        ..Crc::default()
    }
}

fn raw_with_counts(
    table_size_bytes: i64,
    num_files: i64,
    num_metadata: i64,
    num_protocol: i64,
) -> CrcRaw {
    CrcRaw {
        txn_id: None,
        table_size_bytes,
        num_files,
        num_metadata,
        num_protocol,
        metadata: test_metadata(),
        protocol: valid_protocol(),
        in_commit_timestamp_opt: None,
        set_transactions: None,
        domain_metadata: None,
        file_size_histogram: None,
        all_files: None,
        num_deleted_records_opt: None,
        num_deletion_vectors_opt: None,
        deleted_record_counts_histogram_opt: None,
    }
}

fn error_text(raw: CrcRaw) -> String {
    read(raw, 0).unwrap_err().to_text()
}

fn transactions(list: Vec<SetTransaction>) -> StringMap<SetTransaction> {
    let mut map = StringMap::new();
    for txn in list {
        map.insert(txn.app_id.clone(), txn);
    }
    map
}

fn domain_map(list: Vec<DomainMetadata>) -> StringMap<DomainMetadata> {
    let mut map = StringMap::new();
    for domain in list {
        map.insert(domain.domain.clone(), domain);
    }
    map
}

fn txn(app_id: &str, version: i64, last_updated: Option<i64>) -> SetTransaction {
    SetTransaction::new(app_id.to_string(), version, last_updated)
}

fn domain(name: &str, configuration: &str) -> DomainMetadata {
    DomainMetadata::new(name.to_string(), configuration.to_string())
}

fn key(text: &str) -> String {
    text.to_string()
}

#[test]
fn de_vec_to_map_produces_correct_keys_and_values() {
    let raw = CrcRaw {
        set_transactions: Some(vec![txn("app-1", 3, Some(1000)), txn("app-2", 7, None)]),
        domain_metadata: Some(vec![
            domain("delta.rowTracking", "{\"rowIdHighWaterMark\":1}"),
            domain("delta.clustering", "{}"),
        ]),
        ..raw_with_counts(0, 0, 1, 1)
    };
    let crc = read(raw, 0).unwrap();

    let txns = crc.set_transaction_state.expect_complete();
    assert_eq!(txns.len(), 2);
    let txn1 = txns.get(&key("app-1")).unwrap();
    assert_eq!(txn1.app_id, "app-1");
    assert_eq!(txn1.version, 3);
    assert_eq!(txn1.last_updated, Some(1000));
    let txn2 = txns.get(&key("app-2")).unwrap();
    assert_eq!(txn2.app_id, "app-2");
    assert_eq!(txn2.version, 7);
    assert_eq!(txn2.last_updated, None);

    let domains = crc.domain_metadata_state.expect_complete();
    assert_eq!(domains.len(), 2);
    assert!(domains.contains_key(&key("delta.rowTracking")));
    assert!(domains.contains_key(&key("delta.clustering")));
}

fn assert_partial_empty(crc: &Crc) {
    assert!(crc
        .set_transaction_state
        .same(&SetTransactionState::Partial(StringMap::new())));
    assert!(crc
        .domain_metadata_state
        .same(&DomainMetadataState::Partial(StringMap::new())));
    assert!(!crc
        .set_transaction_state
        .same(&SetTransactionState::Complete(StringMap::new())));
}

#[test]
fn de_null_dm_and_txns_deserialize_to_partial_empty() {
    let raw = CrcRaw {
        set_transactions: None,
        domain_metadata: None,
        ..raw_with_counts(0, 0, 1, 1)
    };
    assert_partial_empty(&read(raw, 0).unwrap());
}

#[test]
fn de_missing_dm_and_txns_fields_deserialize_to_partial_empty() {
    let crc = read(raw_with_counts(0, 0, 1, 1), 0).unwrap();
    assert_partial_empty(&crc);
}

#[test]
fn ser_partial_dm_and_partial_txns_serialize_to_null() {
    let crc = crc_with(
        SetTransactionState::Partial(StringMap::new()),
        DomainMetadataState::Partial(StringMap::new()),
    );
    let raw = CrcRaw::try_from(&crc).unwrap();
    assert!(raw.set_transactions.is_none());
    assert!(raw.domain_metadata.is_none());
}

#[test]
fn ser_non_empty_partial_dm_still_serializes_to_null() {
    let crc = crc_with(
        SetTransactionState::Partial(StringMap::new()),
        DomainMetadataState::Partial(domain_map(vec![domain("delta.rowTracking", "{}")])),
    );
    assert!(CrcRaw::try_from(&crc).unwrap().domain_metadata.is_none());
}

#[test]
fn ser_non_empty_partial_txns_still_serializes_to_null() {
    let crc = crc_with(
        SetTransactionState::Partial(transactions(vec![txn("my-app", 1, None)])),
        DomainMetadataState::Partial(StringMap::new()),
    );
    assert!(CrcRaw::try_from(&crc).unwrap().set_transactions.is_none());
}

#[test]
fn ser_map_round_trips_through_vec() {
    let original = crc_with(
        SetTransactionState::Complete(transactions(vec![
            txn("app-1", 5, Some(2000)),
            txn("app-2", 10, None),
        ])),
        DomainMetadataState::Complete(domain_map(vec![domain("delta.rowTracking", "{}")])),
    );
    let raw = CrcRaw::try_from(&original).unwrap();
    let back = read(raw, 0).unwrap();
    assert!(original.same(&back));
}

#[test]
fn round_trip_empty_complete_dm_and_empty_txns() {
    let original = crc_with(
        SetTransactionState::Complete(StringMap::new()),
        DomainMetadataState::Complete(StringMap::new()),
    );
    let raw = CrcRaw::try_from(&original).unwrap();
    assert_eq!(raw.set_transactions.as_ref().map(|v| v.len()), Some(0));
    assert_eq!(raw.domain_metadata.as_ref().map(|v| v.len()), Some(0));
    let back = read(raw, 0).unwrap();
    assert!(original.same(&back));
}

#[test]
fn round_trip_partial_dm_becomes_empty_partial() {
    let original = crc_with(
        SetTransactionState::Partial(StringMap::new()),
        DomainMetadataState::Partial(domain_map(vec![domain("delta.rowTracking", "{}")])),
    );
    let back = read(CrcRaw::try_from(&original).unwrap(), 0).unwrap();
    assert!(back
        .domain_metadata_state
        .same(&DomainMetadataState::Partial(StringMap::new())));
}

#[test]
fn partial_txns_written_as_null_reads_back_as_empty_partial() {
    let original = crc_with(
        SetTransactionState::Partial(transactions(vec![txn("my-app", 7, Some(1000))])),
        DomainMetadataState::Partial(StringMap::new()),
    );
    let back = read(CrcRaw::try_from(&original).unwrap(), 0).unwrap();
    assert!(back
        .set_transaction_state
        .same(&SetTransactionState::Partial(StringMap::new())));
}

#[test]
fn test_crc_with_multiple_domain_metadatas_and_set_transactions() {
    let crc = Crc {
        protocol: valid_protocol(),
        file_stats_state: FileStatsState::Complete(FileStats {
            num_files: 10,
            table_size_bytes: 1024 * 1024,
            file_size_histogram: None,
        }),
        set_transaction_state: SetTransactionState::Complete(transactions(vec![
            txn("streaming-app", 42, Some(1700000000)),
            txn("batch-job", 100, None),
            txn("etl-pipeline", 7, Some(1700001000)),
        ])),
        domain_metadata_state: DomainMetadataState::Complete(domain_map(vec![
            domain("delta.rowTracking", r#"{"rowIdHighWaterMark":500}"#),
            domain("delta.clustering", "{}"),
            domain("custom.app", r#"{"version":"2.0"}"#),
        ])),
        ..Crc::default()
    };

    let back = read(CrcRaw::try_from(&crc).unwrap(), 0).unwrap();

    let stats = back.file_stats().unwrap();
    assert_eq!(stats.table_size_bytes(), 1024 * 1024);
    assert_eq!(stats.num_files(), 10);

    let txns = back.set_transaction_state.expect_complete();
    assert_eq!(txns.len(), 3);
    assert_eq!(txns.get(&key("streaming-app")).unwrap().version, 42);
    assert_eq!(
        txns.get(&key("streaming-app")).unwrap().last_updated,
        Some(1700000000)
    );
    assert_eq!(txns.get(&key("batch-job")).unwrap().version, 100);
    assert_eq!(txns.get(&key("batch-job")).unwrap().last_updated, None);
    assert_eq!(txns.get(&key("etl-pipeline")).unwrap().version, 7);

    let domains = back.domain_metadata_state.expect_complete();
    assert_eq!(domains.len(), 3);
    assert!(domains.contains_key(&key("delta.rowTracking")));
    assert!(domains.contains_key(&key("delta.clustering")));
    assert!(domains.contains_key(&key("custom.app")));
    assert_eq!(
        domains.get(&key("custom.app")).unwrap().configuration,
        r#"{"version":"2.0"}"#
    );
    assert!(crc.same(&back));
}

#[test]
fn de_invalid_count_is_rejected() {
    for bad in [0i64, 2, 3, -1] {
        let err = error_text(raw_with_counts(0, 0, bad, 1));
        assert!(err.contains("numMetadata"), "{err}");
        let err = error_text(raw_with_counts(0, 0, 1, bad));
        assert!(err.contains("numProtocol"), "{err}");
    }
    assert_eq!(
        error_text(raw_with_counts(0, 0, 1, -1)),
        "Generic delta kernel error: CRC file has invalid numProtocol: expected 1, got -1"
    );
}

#[test]
fn de_negative_file_stat_is_rejected() {
    let err = error_text(raw_with_counts(0, -1, 1, 1));
    assert!(err.contains("numFiles"), "{err}");
    let err = error_text(raw_with_counts(-1, 0, 1, 1));
    assert!(err.contains("tableSizeBytes"), "{err}");
    assert!(err.ends_with("expected a non-negative value, got -1"), "{err}");
}

fn histogram_raw(boundaries: Vec<i64>, counts: Vec<i64>, bytes: Vec<i64>) -> FileSizeHistogramRaw {
    FileSizeHistogramRaw {
        sorted_bin_boundaries: boundaries,
        file_counts: counts,
        total_bytes: bytes,
    }
}

#[test]
fn de_negative_file_size_histogram_stat_is_rejected() {
    for (counts, bytes, bin) in [
        (vec![-1, 0], vec![0, 0], 0),
        (vec![0, 0], vec![0, -1], 1),
    ] {
        let raw = CrcRaw {
            file_size_histogram: Some(histogram_raw(vec![0, 1], counts, bytes)),
            ..raw_with_counts(0, 0, 1, 1)
        };
        let err = error_text(raw);
        assert!(err.contains("negative counts or bytes"), "{err}");
        assert!(err.ends_with(&format!("at bin {bin}")), "{err}");
        assert!(!err.contains("kernel bug"), "{err}");
    }
}

#[test]
fn file_stats_reject_histogram_aggregate_errors() {
    let cases = [
        (1, 10, vec![0, 0], vec![0, 10], "file count"),
        (1, 10, vec![1, 0], vec![9, 0], "byte total"),
        (0, 0, vec![i64::MAX, 1], vec![0, 0], "sum overflow"),
        (0, 0, vec![0, 0], vec![i64::MAX, 1], "sum overflow"),
    ];
    for (num_files, table_size_bytes, counts, bytes, expected) in cases {
        let histogram = FileSizeHistogram::try_new(vec![0, 100], counts, bytes).unwrap();
        let error = FileStats::try_new(num_files, table_size_bytes, Some(histogram)).unwrap_err();
        assert!(error.to_text().contains(expected), "{}", error.to_text());
    }
}

#[test]
fn de_rejects_duplicate_or_removed_map_state() {
    let raw = CrcRaw {
        set_transactions: Some(vec![txn("app", 1, None), txn("app", 2, None)]),
        ..raw_with_counts(0, 0, 1, 1)
    };
    assert!(error_text(raw).contains("duplicate transaction"));
    let raw = CrcRaw {
        domain_metadata: Some(vec![domain("domain", "{}"), domain("domain", "{}")]),
        ..raw_with_counts(0, 0, 1, 1)
    };
    assert!(error_text(raw).contains("duplicate domain metadata"));
    let raw = CrcRaw {
        domain_metadata: Some(vec![DomainMetadata::remove(
            "domain".to_string(),
            "{}".to_string(),
        )]),
        ..raw_with_counts(0, 0, 1, 1)
    };
    assert!(error_text(raw).contains("tombstone"));
}

#[test]
fn de_rejects_invalid_deleted_record_histogram() {
    let cases = [
        (vec![0; 9], "exactly 10 bins"),
        (vec![0; 11], "exactly 10 bins"),
        (vec![0, 0, 0, -1, 0, 0, 0, 0, 0, 0], "negative file count"),
        (vec![i64::MAX, 1, 0, 0, 0, 0, 0, 0, 0, 0], "sum overflow"),
    ];
    for (counts, expected) in cases {
        let raw = CrcRaw {
            deleted_record_counts_histogram_opt: Some(DeletedRecordCountsHistogram {
                deleted_record_counts: counts,
            }),
            ..raw_with_counts(0, 0, 1, 1)
        };
        let err = error_text(raw);
        assert!(err.contains(expected), "{err}");
    }
}

#[test]
fn de_rejects_negative_deletion_vector_aggregate() {
    let raw = CrcRaw {
        num_deleted_records_opt: Some(-1),
        ..raw_with_counts(0, 0, 1, 1)
    };
    assert!(error_text(raw).contains("numDeletedRecordsOpt"));
    let raw = CrcRaw {
        num_deletion_vectors_opt: Some(-1),
        ..raw_with_counts(0, 0, 1, 1)
    };
    assert!(error_text(raw).contains("numDeletionVectorsOpt"));
}

fn raw_file(path: &str, size: i64) -> CrcAddRaw {
    CrcAddRaw {
        path: path.to_string(),
        partition_values: StringMap::new(),
        size,
        modification_time: 1,
        data_change: false,
        stats: None,
        tags: None,
        deletion_vector: None,
        base_row_id: None,
        default_row_commit_version: None,
        clustering_provider: None,
    }
}

fn deletion_vector(cardinality: i64) -> Option<CrcDeletionVectorRaw> {
    Some(CrcDeletionVectorRaw {
        storage_type: "p".to_string(),
        path_or_inline_dv: "file:///dv.bin".to_string(),
        offset: Some(0),
        size_in_bytes: 1,
        cardinality,
    })
}

fn deleted_histogram(counts: [i64; 10]) -> Option<DeletedRecordCountsHistogram> {
    Some(DeletedRecordCountsHistogram {
        deleted_record_counts: counts.to_vec(),
    })
}

fn raw_with_one_file() -> CrcRaw {
    let mut file = raw_file("part.parquet", 50);
    file.partition_values.insert(key("nullable_partition"), None);
    CrcRaw {
        file_size_histogram: Some(histogram_raw(vec![0, 100], vec![1, 0], vec![50, 0])),
        all_files: Some(vec![file]),
        num_deleted_records_opt: Some(0),
        num_deletion_vectors_opt: Some(0),
        deleted_record_counts_histogram_opt: deleted_histogram([1, 0, 0, 0, 0, 0, 0, 0, 0, 0]),
        ..raw_with_counts(50, 1, 1, 1)
    }
}

#[test]
fn de_full_file_state_round_trips_through_checked_crc() {
    let crc = read(raw_with_one_file(), 7).unwrap();
    assert_eq!(crc.version, 7);
    let files = crc.all_files.as_ref().unwrap();
    assert_eq!(files.len(), 1);
    assert_eq!(files[0].partition_values.len(), 0);

    let raw = CrcRaw::try_from(&crc).unwrap();
    assert!(read(raw, 7).unwrap().same(&crc));
}

#[test]
fn partition_values_and_tags_survive_a_round_trip() {
    let mut raw = raw_with_one_file();
    let mut file = raw_file("part.parquet", 50);
    file.partition_values.insert(key("a"), Some(key("1")));
    file.partition_values.insert(key("b"), None);
    file.partition_values.insert(key("c"), Some(key("")));
    let mut tags = StringMap::new();
    tags.insert(key("t"), None);
    file.tags = Some(tags);
    raw.all_files = Some(vec![file]);
    let crc = read(raw, 7).unwrap();
    let values = &crc.all_files.as_ref().unwrap()[0].partition_values;
    assert_eq!(values.len(), 2);
    assert_eq!(values.get(&key("a")).unwrap(), "1");
    assert_eq!(values.get(&key("c")).unwrap(), "");
    let back = read(CrcRaw::try_from(&crc).unwrap(), 7).unwrap();
    assert!(back.same(&crc));
    assert_eq!(
        back.all_files.as_ref().unwrap()[0].tags.as_ref().unwrap().len(),
        1
    );
}

#[test]
fn de_rejects_all_files_top_level_mismatch() {
    let plain = || CrcRaw {
        file_size_histogram: None,
        deleted_record_counts_histogram_opt: None,
        ..raw_with_one_file()
    };
    let raw = CrcRaw { num_files: 2, ..plain() };
    assert_eq!(
        error_text(raw),
        "Generic delta kernel error: CRC allFiles count 1 does not match numFiles 2"
    );
    let raw = CrcRaw { table_size_bytes: 51, ..plain() };
    assert_eq!(
        error_text(raw),
        "Generic delta kernel error: CRC allFiles byte total 50 does not match tableSizeBytes 51"
    );
}

#[test]
fn de_rejects_all_files_histogram_bin_mismatch() {
    let raw = CrcRaw {
        file_size_histogram: Some(histogram_raw(vec![0, 100], vec![0, 1], vec![0, 50])),
        ..raw_with_one_file()
    };
    assert!(error_text(raw).contains("allFiles"));
}

#[test]
fn de_rejects_all_files_table_size_overflow() {
    let raw = CrcRaw {
        all_files: Some(vec![raw_file("a", i64::MAX), raw_file("b", 1)]),
        ..raw_with_counts(i64::MAX, 2, 1, 1)
    };
    assert!(error_text(raw).contains("table size overflow"));
}

#[test]
fn all_files_with_a_negative_size_are_rejected() {
    let raw = CrcRaw {
        all_files: Some(vec![raw_file("a", 3), raw_file("b", -3)]),
        ..raw_with_counts(0, 2, 1, 1)
    };
    assert_eq!(
        error_text(raw),
        "Generic delta kernel error: allFiles contains negative file size -3 for b"
    );
}

fn raw_with_deletion_vector() -> CrcRaw {
    let mut raw = raw_with_one_file();
    raw.all_files.as_mut().unwrap()[0].deletion_vector = deletion_vector(13);
    raw.num_deleted_records_opt = Some(13);
    raw.num_deletion_vectors_opt = Some(1);
    raw.deleted_record_counts_histogram_opt = deleted_histogram([0, 0, 1, 0, 0, 0, 0, 0, 0, 0]);
    raw
}

#[test]
fn de_rejects_all_files_deletion_vector_mismatch() {
    assert!(read(raw_with_deletion_vector(), 0).is_ok());
    let raw = CrcRaw {
        num_deleted_records_opt: Some(12),
        ..raw_with_deletion_vector()
    };
    assert!(error_text(raw).contains("deleted-record count"));
    let raw = CrcRaw {
        num_deletion_vectors_opt: Some(0),
        ..raw_with_deletion_vector()
    };
    assert!(error_text(raw).contains("deletion-vector count"));
    let raw = CrcRaw {
        deleted_record_counts_histogram_opt: deleted_histogram([1, 0, 0, 0, 0, 0, 0, 0, 0, 0]),
        ..raw_with_deletion_vector()
    };
    assert!(error_text(raw).contains("deletedRecordCountsHistogramOpt"));
}

#[test]
fn de_rejects_all_files_deleted_record_overflow() {
    let mut a = raw_file("a", 0);
    a.deletion_vector = deletion_vector(i64::MAX);
    let mut b = raw_file("b", 0);
    b.deletion_vector = deletion_vector(1);
    let raw = CrcRaw {
        all_files: Some(vec![a, b]),
        ..raw_with_counts(0, 2, 1, 1)
    };
    assert!(error_text(raw).contains("deleted-record count overflow"));
}

#[test]
fn negative_cardinality_is_rejected() {
    let mut raw = raw_with_deletion_vector();
    raw.all_files.as_mut().unwrap()[0].deletion_vector = deletion_vector(-1);
    assert_eq!(
        error_text(raw),
        "Generic delta kernel error: allFiles contains a deletion vector with negative cardinality -1"
    );
}

#[test]
fn unknown_storage_type_is_rejected() {
    let mut raw = raw_with_deletion_vector();
    let dv = raw.all_files.as_mut().unwrap()[0].deletion_vector.as_mut().unwrap();
    dv.storage_type = "x".to_string();
    let err = read(raw, 0).unwrap_err();
    assert!(matches!(&err, Error::Generic(m) if m.contains("Unknown storage type: x")));
}

#[test]
fn storage_types_round_trip() {
    for name in ["u", "i", "p"] {
        let raw = CrcDeletionVectorRaw {
            storage_type: name.to_string(),
            ..deletion_vector(4).unwrap()
        };
        let dv = raw.try_into_deletion_vector(&Format).unwrap();
        let back = CrcDeletionVectorRaw::from_deletion_vector(&dv);
        assert_eq!(back.storage_type, name);
        assert_eq!(back.cardinality, 4);
    }
}

#[test]
fn more_deletion_vectors_than_files_are_rejected() {
    let raw = CrcRaw {
        num_deletion_vectors_opt: Some(3),
        ..raw_with_counts(10, 2, 1, 1)
    };
    assert_eq!(
        error_text(raw),
        "Generic delta kernel error: CRC numDeletionVectorsOpt 3 exceeds numFiles 2"
    );
}

#[test]
fn deleted_records_without_vectors_are_rejected() {
    let raw = CrcRaw {
        num_deletion_vectors_opt: Some(0),
        num_deleted_records_opt: Some(1),
        ..raw_with_counts(0, 0, 1, 1)
    };
    assert!(error_text(raw).contains("must be zero when numDeletionVectorsOpt is zero"));
}

#[test]
fn deleted_record_histogram_counts_every_file() {
    let raw = CrcRaw {
        deleted_record_counts_histogram_opt: deleted_histogram([1, 2, 0, 0, 0, 0, 0, 0, 0, 0]),
        ..raw_with_counts(0, 4, 1, 1)
    };
    assert_eq!(
        error_text(raw),
        "Generic delta kernel error: CRC deleted-record histogram file count 3 does not match numFiles 4"
    );
}

#[test]
fn de_requires_ict_when_table_has_ict_enabled() {
    let raw = |timestamp: Option<i64>| {
        let mut raw = raw_with_counts(0, 0, 1, 1);
        raw.metadata
            .configuration
            .insert(key("delta.enableInCommitTimestamps"), key("true"));
        raw.protocol = Protocol {
            min_reader_version: 3,
            min_writer_version: 7,
            reader_features: Some(vec![]),
            writer_features: Some(vec![key("inCommitTimestamp")]),
        };
        raw.in_commit_timestamp_opt = timestamp;
        raw
    };
    assert!(error_text(raw(None)).contains("inCommitTimestampOpt"));
    assert!(read(raw(Some(1234)), 0).is_ok());
}

#[test]
fn timestamp_is_refused_where_in_commit_timestamps_are_not_enabled() {
    let refused =
        "Generic delta kernel error: CRC has inCommitTimestampOpt but In-Commit Timestamps are not enabled";
    let neither = CrcRaw {
        in_commit_timestamp_opt: Some(77),
        ..raw_with_counts(0, 0, 1, 1)
    };
    assert_eq!(error_text(neither), refused);

    let mut property_only = raw_with_counts(0, 0, 1, 1);
    property_only
        .metadata
        .configuration
        .insert(key("delta.enableInCommitTimestamps"), key("true"));
    property_only.in_commit_timestamp_opt = Some(77);
    assert_eq!(error_text(property_only), refused);

    let mut feature_only = raw_with_counts(0, 0, 1, 1);
    feature_only.protocol.writer_features = Some(vec![key("inCommitTimestamp")]);
    feature_only.in_commit_timestamp_opt = Some(77);
    assert_eq!(error_text(feature_only), refused);

    let crc = Crc {
        in_commit_timestamp_opt: Some(77),
        ..Crc::default()
    };
    assert!(crc.validate().is_err());
    assert!(CrcRaw::try_from(&crc).is_err());
}

#[test]
fn ser_indeterminate_file_stats_returns_error() {
    let crc = Crc {
        file_stats_state: FileStatsState::Indeterminate,
        ..Crc::default()
    };
    let err = CrcRaw::try_from(&crc).unwrap_err().to_text();
    assert!(err.contains("Cannot serialize CRC"), "{err}");
}

#[test]
fn try_from_ref_indeterminate_returns_checksum_write_unsupported() {
    let crc = Crc {
        file_stats_state: FileStatsState::Indeterminate,
        ..Crc::default()
    };
    let err = CrcRaw::try_from(&crc).unwrap_err();
    assert!(
        matches!(err, Error::ChecksumWriteUnsupported(_)),
        "expected ChecksumWriteUnsupported, got: {err:?}"
    );
}

#[test]
fn invalid_state_is_not_written() {
    let crc = crc_with(
        SetTransactionState::Complete({
            let mut map = StringMap::new();
            map.insert(key("other"), txn("app", 1, None));
            map
        }),
        DomainMetadataState::default(),
    );
    assert_eq!(
        CrcRaw::try_from(&crc).unwrap_err().to_text(),
        "Generic delta kernel error: CRC transaction map key other does not match action application id app"
    );
}

#[test]
fn map_states_reject_misplaced_and_removed_domains() {
    let mut misplaced = StringMap::new();
    misplaced.insert(key("other"), domain("domain", "{}"));
    let crc = crc_with(
        SetTransactionState::default(),
        DomainMetadataState::Partial(misplaced),
    );
    assert!(crc.validate().unwrap_err().to_text().contains(
        "CRC domain metadata map key other does not match action domain domain"
    ));
    let mut removed = StringMap::new();
    removed.insert(key("domain"), DomainMetadata::remove(key("domain"), key("{}")));
    let crc = crc_with(
        SetTransactionState::default(),
        DomainMetadataState::Partial(removed),
    );
    assert!(crc
        .validate()
        .unwrap_err()
        .to_text()
        .contains("partial CRC state contains a domain metadata tombstone for domain"));
}

#[test]
fn file_stats_are_none_where_they_cannot_be_trusted() {
    let known = Crc::default();
    assert_eq!(known.file_stats().unwrap().num_files(), 0);
    assert!(matches!(known.file_stats_state(), FileStatsState::Complete(_)));
    let unknown = Crc {
        file_stats_state: FileStatsState::Indeterminate,
        ..Crc::default()
    };
    assert!(unknown.file_stats().is_none());
    assert!(matches!(
        unknown.file_stats_state(),
        FileStatsState::Indeterminate
    ));
}

#[test]
fn unknown_statistics_do_not_constrain_the_files() {
    let crc = Crc {
        file_stats_state: FileStatsState::Indeterminate,
        all_files: Some(vec![Add {
            path: key("a"),
            partition_values: StringMap::new(),
            size: 9,
            modification_time: 1,
            data_change: true,
            stats: None,
            tags: None,
            deletion_vector: None,
            base_row_id: None,
            default_row_commit_version: None,
            clustering_provider: None,
        }]),
        num_deletion_vectors_opt: Some(0),
        ..Crc::default()
    };
    assert!(crc.validate().is_ok());
    let copy = crc.dup();
    assert!(copy.same(&crc));
}

#[test]
fn de_valid_file_size_histogram_succeeds() {
    let raw = CrcRaw {
        file_size_histogram: Some(histogram_raw(vec![0, 100, 200], vec![0, 0, 0], vec![0, 0, 0])),
        ..raw_with_counts(0, 0, 1, 1)
    };
    let crc = read(raw, 0).unwrap();
    assert!(crc.file_stats().unwrap().file_size_histogram().is_some());
}

#[test]
fn de_null_file_size_histogram_deserializes_to_none() {
    let crc = read(raw_with_counts(0, 0, 1, 1), 0).unwrap();
    assert!(crc.file_stats().unwrap().file_size_histogram().is_none());
    assert!(matches!(de_validated_file_size_histogram(None), Ok(None)));
}

#[test]
fn de_malformed_file_size_histogram_returns_error() {
    let cases = [
        histogram_raw(vec![0, 200, 100], vec![0, 0, 0], vec![0, 0, 0]),
        histogram_raw(vec![1, 100], vec![0, 0], vec![0, 0]),
        histogram_raw(vec![0, 100], vec![0], vec![0, 0]),
        histogram_raw(vec![0], vec![0], vec![0]),
    ];
    for histogram in cases {
        let raw = CrcRaw {
            file_size_histogram: Some(histogram),
            ..raw_with_counts(0, 0, 1, 1)
        };
        assert!(matches!(
            read(raw, 0),
            Err(Error::MalformedJson(_))
        ));
    }
}

#[test]
fn deleted_record_bins_have_their_boundaries() {
    let floors: [i64; 10] = [
        0, 1, 10, 100, 1_000, 10_000, 100_000, 1_000_000, 10_000_000, 2_147_483_647,
    ];
    for (bin, floor) in floors.iter().enumerate() {
        assert_eq!(deleted_record_count_bin(*floor), bin);
        if bin > 0 {
            assert_eq!(deleted_record_count_bin(*floor - 1), bin - 1);
        }
    }
    assert_eq!(deleted_record_count_bin(i64::MAX), 9);
    assert_eq!(deleted_record_count_bin(-1), 9);
}

#[test]
fn file_sizes_fall_into_one_bin() {
    let histogram =
        FileSizeHistogram::try_new(vec![0, 100, 200], vec![1, 1, 1], vec![99, 100, 1000]).unwrap();
    assert!(histogram.validate_file_sizes(&vec![1000, 99, 100]).is_ok());
    assert!(histogram.validate_file_sizes(&vec![1000, 98, 101]).is_err());
    let edges = |counts: Vec<i64>, bytes: Vec<i64>| {
        FileSizeHistogram::try_new(vec![0, 100, 200], counts, bytes)
            .unwrap()
            .validate_file_sizes(&vec![0, 99, 100, 199, 200])
    };
    assert!(edges(vec![2, 2, 1], vec![99, 299, 200]).is_ok());
    assert!(edges(vec![1, 3, 1], vec![0, 398, 200]).is_err());
    assert!(edges(vec![2, 1, 2], vec![99, 100, 399]).is_err());
    assert_eq!(histogram.sorted_bin_boundaries(), &vec![0, 100, 200]);
    assert_eq!(histogram.file_counts().iter().sum::<i64>(), 3);
    assert_eq!(histogram.total_bytes().iter().sum::<i64>(), 1199);
}

#[test]
fn sizes_that_cannot_be_counted_are_rejected() {
    let histogram = FileSizeHistogram::try_new(vec![0, 100], vec![0, 0], vec![0, 0]).unwrap();
    let text = |sizes: Vec<i64>| histogram.validate_file_sizes(&sizes).unwrap_err().to_text();
    assert_eq!(
        text(vec![5, -7, i64::MAX]),
        "Generic delta kernel error: file size histogram cannot hold negative file size -7"
    );
    assert_eq!(
        text(vec![i64::MAX, 1, -7]),
        "Generic delta kernel error: file size histogram byte total overflow"
    );
    assert_eq!(
        text(vec![1]),
        "Generic delta kernel error: CRC allFiles does not match fileSizeHistogram"
    );
    assert!(histogram.validate_file_sizes(&vec![]).is_ok());
}

#[test]
fn order_of_the_files_does_not_matter() {
    let with_files = |order: [usize; 3]| {
        let mut small = raw_file("small", 10);
        small.deletion_vector = deletion_vector(13);
        let files = [small, raw_file("middle", 50), raw_file("large", 200)];
        let mut files: Vec<Option<CrcAddRaw>> = files.into_iter().map(Some).collect();
        CrcRaw {
            file_size_histogram: Some(histogram_raw(vec![0, 100], vec![2, 1], vec![60, 200])),
            all_files: Some(order.iter().map(|i| files[*i].take().unwrap()).collect()),
            num_deleted_records_opt: Some(13),
            num_deletion_vectors_opt: Some(1),
            deleted_record_counts_histogram_opt: deleted_histogram([2, 0, 1, 0, 0, 0, 0, 0, 0, 0]),
            ..raw_with_counts(260, 3, 1, 1)
        }
    };
    for order in [[0, 1, 2], [0, 2, 1], [1, 0, 2], [1, 2, 0], [2, 0, 1], [2, 1, 0]] {
        assert!(read(with_files(order), 0).is_ok());
        let wrong = CrcRaw {
            num_deleted_records_opt: Some(12),
            ..with_files(order)
        };
        assert!(read(wrong, 0).is_err());
    }
}

#[test]
fn refused_deletion_vectors_are_reported() {
    let mut raw = raw_with_deletion_vector();
    let dv = raw.all_files.as_mut().unwrap()[0].deletion_vector.as_mut().unwrap();
    dv.offset = Some(-3);
    assert!(matches!(read(raw, 0), Err(Error::Other(m)) if m == "offset -3"));

    let mut first = raw_file("a", 0);
    first.deletion_vector = deletion_vector(1);
    first.deletion_vector.as_mut().unwrap().offset = Some(-1);
    let mut second = raw_file("b", 0);
    second.deletion_vector = deletion_vector(1);
    second.deletion_vector.as_mut().unwrap().storage_type = "x".to_string();
    let raw = CrcRaw {
        all_files: Some(vec![first, second]),
        ..raw_with_counts(0, 2, 1, 1)
    };
    assert!(matches!(read(raw, 0), Err(Error::Other(m)) if m == "offset -1"));
}

#[test]
fn sums_are_checked() {
    assert_eq!(checked_sum("x", &vec![1, 2, -5]).unwrap(), -2);
    assert_eq!(
        checked_sum("x", &vec![i64::MIN, -1]).unwrap_err().to_text(),
        "Generic delta kernel error: CRC x sum overflow"
    );
}

#[test]
fn complete_state_needs_no_log() {
    let histogram = FileSizeHistogram::try_new(vec![0, 10], vec![0, 1], vec![0, 12]).unwrap();
    let mut metadata = test_metadata();
    metadata
        .configuration
        .insert(key("delta.enableInCommitTimestamps"), key("true"));
    let protocol = Protocol {
        writer_features: Some(vec![key("inCommitTimestamp")]),
        ..valid_protocol()
    };
    let crc = Crc::try_new_complete(
        4,
        metadata,
        protocol,
        1,
        12,
        Some(histogram),
        Some(77),
        Some(vec![txn("app", 1, None)]),
        None,
    )
    .unwrap();
    assert_eq!(crc.version, 4);
    assert_eq!(crc.in_commit_timestamp_opt, Some(77));
    assert_eq!(crc.set_transaction_state.expect_complete().len(), 1);
    assert!(matches!(
        crc.domain_metadata_state,
        DomainMetadataState::Partial(_)
    ));
    let refused = Crc::try_new_complete(
        4,
        test_metadata(),
        valid_protocol(),
        -1,
        12,
        None,
        None,
        None,
        None,
    );
    assert_eq!(
        refused.unwrap_err().to_text(),
        "Generic delta kernel error: CRC has invalid numFiles: expected a non-negative value, got -1"
    );
}
