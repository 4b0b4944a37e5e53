//! What a snapshot build does with its options and with the answers of its host, said of the values
//! that are handed over.

use vstd::prelude::*;

use crate::actions::{Metadata, Protocol};
use crate::crc::checksum::Crc;
use crate::error::Error;
use crate::error::ErrorView;
use crate::log_files;
use crate::log_files::{LogPath, LogPathFileType, LogSegment, LogSegmentFiles, ParsedLogPath};
use crate::snapshot::builder;
use crate::snapshot::builder::SnapshotBuilderView;
use crate::snapshot::catalog;
use crate::snapshot::engine::{Engine, TableFormat};
use crate::snapshot::hint;
use crate::snapshot::hint::HintOptions;
use crate::snapshot::replay;
use crate::snapshot::replay::IncrementalReplay;
use crate::snapshot::table_url;
use crate::snapshot::types::{
    MetricId, Snapshot, SnapshotHint, SnapshotHintVersionStatus, SnapshotLoadMetricContext,
    SnapshotLoadType, SnapshotRef, TableConfiguration,
};
use crate::text;

verus! {

/// Whether a staged commit is among the commits that a hint lists.
pub open spec fn lists_staged_commit(files: LogSegmentFiles) -> bool {
    ||| exists|i: int|
        0 <= i < files.ascending_commit_files@.len() && (
        #[trigger] files.ascending_commit_files@[i]).file_type == LogPathFileType::StagedCommit
    ||| files.latest_commit_file is Some && files.latest_commit_file->0.file_type
        == LogPathFileType::StagedCommit
}

/// Whether a log segment starts at a checkpoint or at the commit of version zero.
pub open spec fn starts_at_the_beginning(segment: LogSegment) -> bool {
    segment.checkpoint_version is Some || (segment.listed.ascending_commit_files@.len() > 0
        && segment.listed.ascending_commit_files@[0].version == 0)
}

/// A snapshot that a hint gives is at the version of the hint, with its protocol and metadata and,
/// where the hint has one, a checksum state of that same version, protocol and metadata. It is the
/// latest exactly where the hint says so. The options do not contradict the hint, and the files are
/// complete: no compacted commits, the commit of the version itself, nothing published later, and
/// a history from the beginning. Staged commits come with a maximum catalog version.
pub proof fn law_hinted_snapshot<F: TableFormat>(
    format: &F,
    table_root: Option<String>,
    options: HintOptions,
    hint: SnapshotHint,
    snapshot: SnapshotRef,
)
    requires
        hint::hint_build(format, table_root, options, hint, Ok::<SnapshotRef, Error>(snapshot)),
    ensures
        snapshot.table_configuration.version == hint.version,
        snapshot.table_configuration.protocol == hint.protocol,
        snapshot.table_configuration.metadata == hint.metadata,
        snapshot.crc == hint.crc,
        snapshot.crc matches Some(crc) ==> {
            &&& crc.version == snapshot.table_configuration.version
            &&& crc.protocol.deep_view() == snapshot.table_configuration.protocol.deep_view()
            &&& crc.metadata.deep_view() == snapshot.table_configuration.metadata.deep_view()
        },
        snapshot.built_as_latest <==> hint.version_status == SnapshotHintVersionStatus::Latest,
        !options.from_snapshot,
        options.log_tail_len == 0,
        options.incremental_replay == IncrementalReplay::Disabled,
        options.version is Some ==> options.version->0 == hint.version,
        options.version is Some && options.max_catalog_version is Some ==> hint.version
            <= options.max_catalog_version->0,
        options.version is None && options.max_catalog_version is Some
            ==> options.max_catalog_version->0 == hint.version,
        hint.log_segment_files.ascending_compaction_files@.len() == 0,
        hint.log_segment_files.ascending_commit_files@.len() > 0
            ==> hint.log_segment_files.latest_commit_file is Some,
        lists_staged_commit(hint.log_segment_files) ==> options.max_catalog_version is Some,
        starts_at_the_beginning(snapshot.log_segment),
        snapshot.log_segment.listed.max_published_version is Some
            ==> snapshot.log_segment.listed.max_published_version->0 <= hint.version,
{
}

/// The table format was asked about exactly the parts of the hint and of the snapshot: the given
/// table root, the files of the hint, a log segment of those files in the log directory at the
/// version of the hint with its checkpoint contents, the metadata and protocol of the hint, and the
/// parts of the snapshot itself. It accepted them all, and its answers are what the snapshot holds.
pub proof fn law_hinted_snapshot_was_checked<F: TableFormat>(
    format: &F,
    table_root: Option<String>,
    options: HintOptions,
    hint: SnapshotHint,
    snapshot: SnapshotRef,
)
    requires
        hint::hint_build(format, table_root, options, hint, Ok::<SnapshotRef, Error>(snapshot)),
    ensures
        table_root is Some,
        call_ensures(
            F::parse_table_root,
            (format, &table_root->0),
            Ok::<String, Error>(snapshot.table_configuration.table_root),
        ),
        call_ensures(
            F::validate_log_path_fields,
            (format, &hint.log_segment_files),
            Ok::<(), Error>(()),
        ),
        exists|log_root: String|
            table_url::joined_url(snapshot.table_configuration.table_root@, "_delta_log/"@) == Ok::<
                Seq<char>,
                Seq<char>,
            >(log_root@) && #[trigger] call_ensures(
                F::log_segment,
                (
                    format,
                    hint.log_segment_files,
                    log_root,
                    Some(hint.version),
                    hint.last_checkpoint_hint,
                ),
                Ok::<LogSegment, Error>(snapshot.log_segment),
            ),
        call_ensures(
            F::catalog_managed,
            (
                format,
                &hint.metadata,
                &hint.protocol,
                &snapshot.table_configuration.table_root,
                hint.version,
            ),
            Ok::<bool, Error>(snapshot.table_configuration.catalog_managed),
        ),
        call_ensures(
            F::check_snapshot,
            (format, &snapshot.log_segment, &snapshot.table_configuration, &snapshot.crc),
            Ok::<(), Error>(()),
        ),
{
    let located = choose|located: Result<String, Error>| #[trigger]
        call_ensures(F::parse_table_root, (format, &table_root->0), located) && hint::located_build(
            format,
            hint,
            options.max_catalog_version,
            located,
            Ok::<SnapshotRef, Error>(snapshot),
        );
    let url = located->Ok_0;
    let (root, checked) = choose|root: String, checked: Result<(), Error>|
        root@ == table_url::joined_url(url@, "_delta_log/"@)->Ok_0 && #[trigger] call_ensures(
            F::validate_log_path_fields,
            (format, &hint.log_segment_files),
            checked,
        ) && #[trigger] hint::paths_build(
            format,
            hint,
            options.max_catalog_version,
            url,
            root,
            checked,
            Ok::<SnapshotRef, Error>(snapshot),
        );
    if let Ok(unit) = checked {
        assert(unit == ());
    }
    let outcome = choose|outcome: Result<LogSegment, Error>| #[trigger]
        call_ensures(
            F::log_segment,
            (
                format,
                hint.log_segment_files,
                root,
                Some(hint.version),
                hint.last_checkpoint_hint,
            ),
            outcome,
        ) && hint::segment_build(
            format,
            hint,
            options.max_catalog_version,
            url,
            outcome,
            Ok::<SnapshotRef, Error>(snapshot),
        );
    let segment = outcome->Ok_0;
    let configured = choose|configured: Result<bool, Error>| #[trigger]
        call_ensures(
            F::catalog_managed,
            (format, &hint.metadata, &hint.protocol, &url, hint.version),
            configured,
        ) && hint::configured_build(
            format,
            hint,
            url,
            segment,
            configured,
            Ok::<SnapshotRef, Error>(snapshot),
        );
    let made = hint::hinted_snapshot(hint, segment, url, configured->Ok_0);
    let answer = choose|answer: Result<(), Error>| #[trigger]
        call_ensures(
            F::check_snapshot,
            (format, &segment, &made.table_configuration, &hint.crc),
            answer,
        ) && match answer {
            Err(e) => false,
            Ok(()) => *snapshot == made,
        };
    if let Ok(unit) = answer {
        assert(unit == ());
    }
}

/// A hint is refused only for a reason: an option that contradicts it, a table root that is missing
/// or is no URL, compacted commits, a missing commit of the version itself, something published
/// later, staged commits without a maximum catalog version, a history that does not start at the
/// beginning, a checksum state of another version, protocol or metadata, or a refusal of the table
/// format.
pub proof fn law_hint_refused_for_a_reason<F: TableFormat>(
    format: &F,
    table_root: Option<String>,
    options: HintOptions,
    hint: SnapshotHint,
    e: Error,
)
    requires
        hint::hint_build(format, table_root, options, hint, Err::<SnapshotRef, Error>(e)),
    ensures
        ({
            ||| options.version is Some && options.max_catalog_version is Some
                && options.version->0 > options.max_catalog_version->0
                && e.deep_view() is MaxCatalogVersion
            ||| options.from_snapshot && e.deep_view() is InvalidSnapshotHint
            ||| options.log_tail_len > 0 && e.deep_view() is InvalidSnapshotHint
            ||| options.incremental_replay != IncrementalReplay::Disabled
                && e.deep_view() is InvalidSnapshotHint
            ||| options.version is Some && options.version->0 != hint.version
                && e.deep_view() is InvalidSnapshotHint
            ||| options.version is None && options.max_catalog_version is Some
                && options.max_catalog_version->0 != hint.version
                && e.deep_view() is MaxCatalogVersion
            ||| table_root is None && e.deep_view() is InternalError
            ||| call_ensures(
                F::parse_table_root,
                (format, &table_root->0),
                Err::<String, Error>(e),
            )
            ||| exists|url: String| #[trigger]
                call_ensures(
                    F::parse_table_root,
                    (format, &table_root->0),
                    Ok::<String, Error>(url),
                ) && table_url::joined_url(url@, "_delta_log/"@) is Err
                    && e.deep_view() is InvalidUrl
            ||| hint.log_segment_files.ascending_compaction_files@.len() > 0
                && e.deep_view() is Unsupported
            ||| call_ensures(
                F::validate_log_path_fields,
                (format, &hint.log_segment_files),
                Err::<(), Error>(e),
            )
            ||| hint.log_segment_files.ascending_commit_files@.len() > 0
                && hint.log_segment_files.latest_commit_file is None
                && e.deep_view() is InvalidSnapshotHint
            ||| exists|log_root: String, refusal: Error|
                e.deep_view() == ErrorView::InvalidSnapshotHint(refusal.deep_view().hint_message())
                    && #[trigger] call_ensures(
                    F::log_segment,
                    (
                        format,
                        hint.log_segment_files,
                        log_root,
                        Some(hint.version),
                        hint.last_checkpoint_hint,
                    ),
                    Err::<LogSegment, Error>(refusal),
                )
            ||| exists|log_root: String, segment: LogSegment|
                #![trigger call_ensures(
                    F::log_segment,
                    (
                        format,
                        hint.log_segment_files,
                        log_root,
                        Some(hint.version),
                        hint.last_checkpoint_hint,
                    ),
                    Ok::<LogSegment, Error>(segment),
                )]
                call_ensures(
                    F::log_segment,
                    (
                        format,
                        hint.log_segment_files,
                        log_root,
                        Some(hint.version),
                        hint.last_checkpoint_hint,
                    ),
                    Ok::<LogSegment, Error>(segment),
                ) && {
                    ||| segment.listed.max_published_version is Some
                        && segment.listed.max_published_version->0 > hint.version
                        && e.deep_view() is InvalidSnapshotHint
                    ||| lists_staged_commit(hint.log_segment_files)
                        && options.max_catalog_version is None && e.deep_view() is MaxCatalogVersion
                    ||| !starts_at_the_beginning(segment) && e.deep_view() is InvalidSnapshotHint
                }
            ||| exists|url: String| #[trigger]
                call_ensures(
                    F::catalog_managed,
                    (format, &hint.metadata, &hint.protocol, &url, hint.version),
                    Err::<bool, Error>(e),
                )
            ||| hint.crc matches Some(crc) && (crc.version != hint.version
                || crc.protocol.deep_view() != hint.protocol.deep_view()
                || crc.metadata.deep_view() != hint.metadata.deep_view())
                && e.deep_view() is InvalidSnapshotHint
            ||| exists|segment: LogSegment, configuration: TableConfiguration|
                configuration.version == hint.version && #[trigger] call_ensures(
                    F::check_snapshot,
                    (format, &segment, &configuration, &hint.crc),
                    Err::<(), Error>(e),
                )
        }),
{
    let failed = Err::<SnapshotRef, Error>(e);
    if options.allow(hint.version) && table_root is Some {
        let located = choose|located: Result<String, Error>| #[trigger]
            call_ensures(F::parse_table_root, (format, &table_root->0), located)
                && hint::located_build(
                format,
                hint,
                options.max_catalog_version,
                located,
                failed,
            );
        if let Ok(url) = located {
            if table_url::joined_url(url@, "_delta_log/"@) is Ok
                && hint.log_segment_files.ascending_compaction_files@.len() == 0 {
                let (root, checked) = choose|root: String, checked: Result<(), Error>|
                    root@ == table_url::joined_url(url@, "_delta_log/"@)->Ok_0
                        && #[trigger] call_ensures(
                        F::validate_log_path_fields,
                        (format, &hint.log_segment_files),
                        checked,
                    ) && #[trigger] hint::paths_build(
                        format,
                        hint,
                        options.max_catalog_version,
                        url,
                        root,
                        checked,
                        failed,
                    );
                if checked is Ok && hint::latest_commit_present(hint.log_segment_files) {
                    let outcome = choose|outcome: Result<LogSegment, Error>| #[trigger]
                        call_ensures(
                            F::log_segment,
                            (
                                format,
                                hint.log_segment_files,
                                root,
                                Some(hint.version),
                                hint.last_checkpoint_hint,
                            ),
                            outcome,
                        ) && hint::segment_build(
                            format,
                            hint,
                            options.max_catalog_version,
                            url,
                            outcome,
                            failed,
                        );
                    if let Ok(segment) = outcome {
                        assert(call_ensures(
                            F::log_segment,
                            (
                                format,
                                hint.log_segment_files,
                                root,
                                Some(hint.version),
                                hint.last_checkpoint_hint,
                            ),
                            Ok::<LogSegment, Error>(segment),
                        ));
                        if hint::segment_valid(
                            segment,
                            hint.version,
                            hint::has_staged_commits(hint.log_segment_files),
                            options.max_catalog_version,
                        ) {
                            let configured = choose|configured: Result<bool, Error>| #[trigger]
                                call_ensures(
                                    F::catalog_managed,
                                    (
                                        format,
                                        &hint.metadata,
                                        &hint.protocol,
                                        &url,
                                        hint.version,
                                    ),
                                    configured,
                                ) && hint::configured_build(
                                    format,
                                    hint,
                                    url,
                                    segment,
                                    configured,
                                    failed,
                                );
                            if let Ok(managed) = configured {
                                let made = hint::hinted_snapshot(hint, segment, url, managed);
                                assert(made.table_configuration.version == hint.version);
                            }
                        }
                    } else {
                        let refusal = outcome->Err_0;
                        assert(call_ensures(
                            F::log_segment,
                            (
                                format,
                                hint.log_segment_files,
                                root,
                                Some(hint.version),
                                hint.last_checkpoint_hint,
                            ),
                            Err::<LogSegment, Error>(refusal),
                        ));
                    }
                }
            }
        }
    }
}

/// Whether the engine is handed the log tail of the builder: the same files in the same order.
pub open spec fn same_files(handed: Seq<ParsedLogPath>, given: Seq<LogPath>) -> bool {
    &&& handed.len() == given.len()
    &&& forall|i: int| 0 <= i < given.len() ==> (#[trigger] handed[i]) == given[i].path
}

/// Whether the engine is handed the version to load: the requested one, or else the maximum catalog
/// version; none, the latest, only where neither was given.
pub open spec fn version_to_load<T>(
    handed: Option<u64>,
    options: SnapshotBuilderView<T>,
) -> bool {
    &&& options.version is Some ==> handed == options.version
    &&& options.version is None ==> handed == options.max_catalog_version
}

/// Whether the engine is told that it loads the latest version: none was requested, or the one that
/// was is the last that the catalog ratified.
pub open spec fn told_latest<T>(told: bool, options: SnapshotBuilderView<T>) -> bool {
    told <==> options.version is None || (options.max_catalog_version is Some
        && options.max_catalog_version->0 == options.version->0)
}

/// Whether the engine is handed what the metric events of this build carry.
pub open spec fn context_of<T>(
    context: SnapshotLoadMetricContext,
    options: SnapshotBuilderView<T>,
    load_type: SnapshotLoadType,
) -> bool {
    &&& context.operation_id == options.operation_id
    &&& context.is_catalog_managed <==> options.max_catalog_version is Some
    &&& context.correlation_id == options.correlation_id
    &&& context.load_type == load_type
}

proof fn lemma_same_files(handed: Vec<ParsedLogPath>, given: Vec<LogPath>)
    requires
        handed@ == log_files::parsed_paths(given@),
    ensures
        same_files(handed@, given@),
{
}

/// A build from a location that succeeds lists the log of that location with exactly the log tail
/// that was set, up to the version that was asked for, with the cancellation token, and gives the
/// snapshot that the engine loads from the listed segment with the replay mode that was set.
pub proof fn law_full_build<E: Engine>(
    engine: &E,
    options: SnapshotBuilderView<E::Token>,
    snapshot: SnapshotRef,
)
    requires
        builder::builds(engine, options, Ok::<SnapshotRef, Error>(snapshot)),
        options.snapshot_hint is None,
        options.table_root is Some,
    ensures
        exists|
            url: String,
            root: String,
            handed: Vec<ParsedLogPath>,
            version: Option<u64>,
            context: SnapshotLoadMetricContext,
            segment: LogSegment,
            latest: bool,
        |
            {
                &&& call_ensures(
                    E::parse_table_root,
                    (engine, &options.table_root->0),
                    Ok::<String, Error>(url),
                )
                &&& table_url::joined_url(url@, "_delta_log/"@) == Ok::<Seq<char>, Seq<char>>(root@)
                &&& same_files(handed@, options.log_tail@)
                &&& version_to_load(version, options)
                &&& context_of(context, options, SnapshotLoadType::Full)
                &&& told_latest(latest, options)
                &&& #[trigger] call_ensures(
                    E::list_log_segment,
                    (engine, &root, handed, version, &context, &options.cancellation_token),
                    Ok::<LogSegment, Error>(segment),
                )
                &&& #[trigger] call_ensures(
                    E::load_snapshot,
                    (engine, url, segment, &context, options.incremental_replay, latest),
                    Ok::<Snapshot, Error>(*snapshot),
                )
            },
{
    let outcome = choose|outcome: Result<SnapshotRef, Error>| #[trigger]
        builder::loads(engine, options, outcome) && builder::checked_result(
            outcome,
            options.max_catalog_version,
            Ok::<SnapshotRef, Error>(snapshot),
        );
    assert(outcome == Ok::<SnapshotRef, Error>(snapshot));
    let located = choose|located: Result<String, Error>| #[trigger]
        call_ensures(E::parse_table_root, (engine, &options.table_root->0), located)
            && builder::located_load(engine, options, located, outcome);
    let url = located->Ok_0;
    let version = catalog::effective_version(options.version, options.max_catalog_version);
    let latest = catalog::loads_latest(options.version, options.max_catalog_version);
    let context = options.context();
    let (root, handed, listed) = choose|
        root: String,
        handed: Vec<ParsedLogPath>,
        listed: Result<LogSegment, Error>,
    |
        root@ == table_url::joined_url(url@, "_delta_log/"@)->Ok_0 && handed@
            == log_files::parsed_paths(options.log_tail@) && #[trigger] call_ensures(
            E::list_log_segment,
            (engine, &root, handed, version, &context, &options.cancellation_token),
            listed,
        ) && builder::segment_loaded(engine, options, url, listed, outcome);
    lemma_same_files(handed, options.log_tail);
    let segment = listed->Ok_0;
    let loaded = choose|loaded: Result<Snapshot, Error>| #[trigger]
        call_ensures(
            E::load_snapshot,
            (engine, url, segment, &context, options.incremental_replay, latest),
            loaded,
        ) && match loaded {
            Err(e) => false,
            Ok(made) => *snapshot == made,
        };
    assert(loaded == Ok::<Snapshot, Error>(*snapshot));
    assert(listed == Ok::<LogSegment, Error>(segment));
    assert(call_ensures(
        E::list_log_segment,
        (engine, &root, handed, version, &context, &options.cancellation_token),
        Ok::<LogSegment, Error>(segment),
    ));
    assert(call_ensures(
        E::load_snapshot,
        (engine, url, segment, &context, options.incremental_replay, latest),
        Ok::<Snapshot, Error>(*snapshot),
    ));
}

/// A build from an existing snapshot that succeeds gives what the engine makes of that snapshot
/// with exactly the log tail that was set, the version that was asked for, the replay mode and the
/// cancellation token.
pub proof fn law_incremental_build<E: Engine>(
    engine: &E,
    options: SnapshotBuilderView<E::Token>,
    snapshot: SnapshotRef,
)
    requires
        builder::builds(engine, options, Ok::<SnapshotRef, Error>(snapshot)),
        options.snapshot_hint is None,
        options.table_root is None,
    ensures
        options.existing_snapshot is Some,
        exists|
            handed: Vec<ParsedLogPath>,
            version: Option<u64>,
            context: SnapshotLoadMetricContext,
            latest: bool,
        |
            {
                &&& same_files(handed@, options.log_tail@)
                &&& version_to_load(version, options)
                &&& context_of(context, options, SnapshotLoadType::Incremental)
                &&& told_latest(latest, options)
                &&& #[trigger] call_ensures(
                    E::update_snapshot,
                    (
                        engine,
                        options.existing_snapshot->0,
                        handed,
                        version,
                        &context,
                        options.incremental_replay,
                        latest,
                        &options.cancellation_token,
                    ),
                    Ok::<SnapshotRef, Error>(snapshot),
                )
            },
{
    let outcome = choose|outcome: Result<SnapshotRef, Error>| #[trigger]
        builder::loads(engine, options, outcome) && builder::checked_result(
            outcome,
            options.max_catalog_version,
            Ok::<SnapshotRef, Error>(snapshot),
        );
    assert(outcome == Ok::<SnapshotRef, Error>(snapshot));
    let version = catalog::effective_version(options.version, options.max_catalog_version);
    let latest = catalog::loads_latest(options.version, options.max_catalog_version);
    let context = options.context();
    let handed = choose|handed: Vec<ParsedLogPath>|
        handed@ == log_files::parsed_paths(options.log_tail@) && #[trigger] call_ensures(
            E::update_snapshot,
            (
                engine,
                options.existing_snapshot->0,
                handed,
                version,
                &context,
                options.incremental_replay,
                latest,
                &options.cancellation_token,
            ),
            outcome,
        );
    lemma_same_files(handed, options.log_tail);
}

/// A build with a hint that succeeds gives the snapshot of the hint at the location of the builder.
pub proof fn law_hint_build<E: Engine>(
    engine: &E,
    options: SnapshotBuilderView<E::Token>,
    hint: SnapshotHint,
    snapshot: SnapshotRef,
)
    requires
        builder::builds(engine, options, Ok::<SnapshotRef, Error>(snapshot)),
        options.snapshot_hint == Some(hint),
    ensures
        snapshot.table_configuration.version == hint.version,
        snapshot.table_configuration.protocol == hint.protocol,
        snapshot.table_configuration.metadata == hint.metadata,
        snapshot.crc == hint.crc,
        snapshot.crc matches Some(crc) ==> {
            &&& crc.version == snapshot.table_configuration.version
            &&& crc.protocol.deep_view() == snapshot.table_configuration.protocol.deep_view()
            &&& crc.metadata.deep_view() == snapshot.table_configuration.metadata.deep_view()
        },
        snapshot.built_as_latest <==> hint.version_status == SnapshotHintVersionStatus::Latest,
        options.existing_snapshot is None,
        options.log_tail@.len() == 0,
        options.incremental_replay == IncrementalReplay::Disabled,
        options.version is Some ==> options.version->0 == hint.version,
        options.version is Some && options.max_catalog_version is Some ==> hint.version
            <= options.max_catalog_version->0,
        options.version is None && options.max_catalog_version is Some
            ==> options.max_catalog_version->0 == hint.version,
        lists_staged_commit(hint.log_segment_files) ==> options.max_catalog_version is Some,
        options.table_root is Some,
        call_ensures(
            E::parse_table_root,
            (engine, &options.table_root->0),
            Ok::<String, Error>(snapshot.table_configuration.table_root),
        ),
{
    let outcome = choose|outcome: Result<SnapshotRef, Error>| #[trigger]
        builder::loads(engine, options, outcome) && builder::checked_result(
            outcome,
            options.max_catalog_version,
            Ok::<SnapshotRef, Error>(snapshot),
        );
    assert(outcome == Ok::<SnapshotRef, Error>(snapshot));
    assert(options.log_tail.len() == options.log_tail@.len());
    law_hinted_snapshot(engine, options.table_root, options.hint_options(), hint, snapshot);
    law_hinted_snapshot_was_checked(
        engine,
        options.table_root,
        options.hint_options(),
        hint,
        snapshot,
    );
}

/// Inputs are accepted exactly where the versions of the log tail ascend one by one, staged commits
/// come with a maximum catalog version, a requested version does not exceed it, and, with one, the
/// log tail reaches the requested version or else ends at the maximum catalog version.
pub proof fn law_inputs_accepted_exactly(
    version: Option<u64>,
    max_catalog_version: Option<u64>,
    tail: Seq<ParsedLogPath>,
)
    ensures
        catalog::inputs_valid(version, max_catalog_version, tail) <==> {
            &&& forall|i: int, j: int|
                0 <= i && i + 1 == j && j < tail.len() ==> (#[trigger] tail[i]).version + 1 == (
                #[trigger] tail[j]).version
            &&& max_catalog_version is None ==> forall|i: int|
                0 <= i < tail.len() ==> (#[trigger] tail[i]).file_type
                    != LogPathFileType::StagedCommit
            &&& version is Some && max_catalog_version is Some ==> version->0
                <= max_catalog_version->0
            &&& max_catalog_version is Some && version is Some && tail.len() > 0 ==> tail[tail.len()
                - 1].version >= version->0
            &&& max_catalog_version is Some && version is None && tail.len() > 0 ==> tail[tail.len()
                - 1].version == max_catalog_version->0
        },
{
    if catalog::contiguous(tail) {
        assert forall|i: int, j: int| 0 <= i && i + 1 == j && j < tail.len() implies (
        #[trigger] tail[i]).version + 1 == (#[trigger] tail[j]).version by {}
    }
    if forall|i: int, j: int|
        0 <= i && i + 1 == j && j < tail.len() ==> (#[trigger] tail[i]).version + 1 == (
        #[trigger] tail[j]).version {
        assert forall|i: int| 0 <= i < tail.len() implies (#[trigger] tail[i]).version
            == tail[0].version + i by {
            lemma_step_by_step(tail, i);
        }
    }
}

proof fn lemma_step_by_step(tail: Seq<ParsedLogPath>, i: int)
    requires
        0 <= i < tail.len(),
        forall|i: int, j: int|
            0 <= i && i + 1 == j && j < tail.len() ==> (#[trigger] tail[i]).version + 1 == (
            #[trigger] tail[j]).version,
    ensures
        tail[i].version == tail[0].version + i,
    decreases i,
{
    if i > 0 {
        lemma_step_by_step(tail, i - 1);
        assert(tail[i - 1].version + 1 == tail[i].version);
    }
}

/// What is wrong with inputs is told by the kind of the error: a gap in the log tail names the two
/// versions beside it, and anything else is about the maximum catalog version.
pub proof fn law_input_errors(
    version: Option<u64>,
    max_catalog_version: Option<u64>,
    tail: Seq<ParsedLogPath>,
    e: ErrorView,
)
    requires
        !catalog::inputs_valid(version, max_catalog_version, tail),
        catalog::reports_inputs(version, max_catalog_version, tail, e),
    ensures
        e is MaxCatalogVersion || exists|i: int|
            #![trigger tail[i]]
            0 <= i && i + 1 < tail.len() && tail[i].version + 1 != tail[i + 1].version && e == (
            ErrorView::LogTailVersionsNotContiguous {
                first_version: tail[i].version,
                second_version: tail[i + 1].version,
            }),
{
    if !catalog::contiguous(tail) {
        let i = choose|i: int|
            0 <= i && i + 1 < tail.len() && catalog::contiguous(tail.take(i + 1))
                && !catalog::contiguous(tail.take(i + 2)) && e == (
            ErrorView::LogTailVersionsNotContiguous {
                first_version: (#[trigger] tail[i]).version,
                second_version: tail[i + 1].version,
            });
        let (seen, next) = (tail.take(i + 1), tail.take(i + 2));
        if tail[i].version + 1 == tail[i + 1].version {
            assert(seen[i].version == seen[0].version + i);
            assert forall|k: int| 0 <= k < next.len() implies (#[trigger] next[k]).version
                == next[0].version + k by {
                if k <= i {
                    assert(seen[k] == next[k]);
                    assert(seen[k].version == seen[0].version + k);
                }
            }
        }
    }
}

/// A build without a hint fails only for a reason: inputs that conflict, an error of the engine, a
/// location that is no URL, or a snapshot that a catalog manages without a maximum catalog version
/// or the other way round.
pub proof fn law_build_refused_for_a_reason<E: Engine>(
    engine: &E,
    options: SnapshotBuilderView<E::Token>,
    e: Error,
)
    requires
        builder::builds(engine, options, Err::<SnapshotRef, Error>(e)),
        options.snapshot_hint is None,
        options.one_source(),
        catalog::inputs_valid(
            options.version,
            options.max_catalog_version,
            log_files::parsed_paths(options.log_tail@),
        ),
    ensures
        options.table_root is Some ==> {
            ||| call_ensures(
                E::parse_table_root,
                (engine, &options.table_root->0),
                Err::<String, Error>(e),
            )
            ||| exists|url: String| #[trigger]
                call_ensures(
                    E::parse_table_root,
                    (engine, &options.table_root->0),
                    Ok::<String, Error>(url),
                ) && table_url::joined_url(url@, "_delta_log/"@) is Err
                    && e.deep_view() is InvalidUrl
            ||| exists|
                root: String,
                handed: Vec<ParsedLogPath>,
                version: Option<u64>,
                context: SnapshotLoadMetricContext,
            |
                same_files(handed@, options.log_tail@) && version_to_load(version, options)
                    && #[trigger] call_ensures(
                    E::list_log_segment,
                    (engine, &root, handed, version, &context, &options.cancellation_token),
                    Err::<LogSegment, Error>(e),
                )
            ||| exists|
                url: String,
                segment: LogSegment,
                context: SnapshotLoadMetricContext,
                latest: bool,
            |
                told_latest(latest, options) && #[trigger] call_ensures(
                    E::load_snapshot,
                    (engine, url, segment, &context, options.incremental_replay, latest),
                    Err::<Snapshot, Error>(e),
                )
            ||| exists|
                url: String,
                segment: LogSegment,
                context: SnapshotLoadMetricContext,
                latest: bool,
                made: Snapshot,
            |
                (made.table_configuration.catalog_managed <==> options.max_catalog_version is None)
                    && e.deep_view() is MaxCatalogVersion && #[trigger] call_ensures(
                    E::load_snapshot,
                    (engine, url, segment, &context, options.incremental_replay, latest),
                    Ok::<Snapshot, Error>(made),
                )
        },
        options.table_root is None ==> exists|
            handed: Vec<ParsedLogPath>,
            version: Option<u64>,
            context: SnapshotLoadMetricContext,
            latest: bool,
            outcome: Result<SnapshotRef, Error>,
        |
            {
                &&& same_files(handed@, options.log_tail@)
                &&& version_to_load(version, options)
                &&& told_latest(latest, options)
                &&& #[trigger] call_ensures(
                    E::update_snapshot,
                    (
                        engine,
                        options.existing_snapshot->0,
                        handed,
                        version,
                        &context,
                        options.incremental_replay,
                        latest,
                        &options.cancellation_token,
                    ),
                    outcome,
                )
                &&& match outcome {
                    Err(refusal) => e == refusal,
                    Ok(made) => e.deep_view() is MaxCatalogVersion && (
                    made.table_configuration.catalog_managed
                        <==> options.max_catalog_version is None),
                }
            },
{
    let failed = Err::<SnapshotRef, Error>(e);
    let outcome = choose|outcome: Result<SnapshotRef, Error>| #[trigger]
        builder::loads(engine, options, outcome) && builder::checked_result(
            outcome,
            options.max_catalog_version,
            failed,
        );
    let version = catalog::effective_version(options.version, options.max_catalog_version);
    let latest = catalog::loads_latest(options.version, options.max_catalog_version);
    let context = options.context();
    if options.table_root is Some {
        let located = choose|located: Result<String, Error>| #[trigger]
            call_ensures(E::parse_table_root, (engine, &options.table_root->0), located)
                && builder::located_load(engine, options, located, outcome);
        if let Ok(url) = located {
            if table_url::joined_url(url@, "_delta_log/"@) is Ok {
                let (root, handed, listed) = choose|
                    root: String,
                    handed: Vec<ParsedLogPath>,
                    listed: Result<LogSegment, Error>,
                |
                    root@ == table_url::joined_url(url@, "_delta_log/"@)->Ok_0 && handed@
                        == log_files::parsed_paths(options.log_tail@) && #[trigger] call_ensures(
                        E::list_log_segment,
                        (engine, &root, handed, version, &context, &options.cancellation_token),
                        listed,
                    ) && builder::segment_loaded(engine, options, url, listed, outcome);
                lemma_same_files(handed, options.log_tail);
                if let Ok(segment) = listed {
                    let loaded = choose|loaded: Result<Snapshot, Error>| #[trigger]
                        call_ensures(
                            E::load_snapshot,
                            (engine, url, segment, &context, options.incremental_replay, latest),
                            loaded,
                        ) && match loaded {
                            Err(refusal) => outcome == Err::<SnapshotRef, Error>(refusal),
                            Ok(made) => outcome matches Ok(shared) && *shared == made,
                        };
                    if let Ok(made) = loaded {
                        assert(call_ensures(
                            E::load_snapshot,
                            (engine, url, segment, &context, options.incremental_replay, latest),
                            Ok::<Snapshot, Error>(made),
                        ));
                    } else {
                        assert(call_ensures(
                            E::load_snapshot,
                            (engine, url, segment, &context, options.incremental_replay, latest),
                            Err::<Snapshot, Error>(e),
                        ));
                    }
                } else {
                    assert(call_ensures(
                        E::list_log_segment,
                        (engine, &root, handed, version, &context, &options.cancellation_token),
                        Err::<LogSegment, Error>(e),
                    ));
                }
            }
        }
    } else {
        let handed = choose|handed: Vec<ParsedLogPath>|
            handed@ == log_files::parsed_paths(options.log_tail@) && #[trigger] call_ensures(
                E::update_snapshot,
                (
                    engine,
                    options.existing_snapshot->0,
                    handed,
                    version,
                    &context,
                    options.incremental_replay,
                    latest,
                    &options.cancellation_token,
                ),
                outcome,
            );
        lemma_same_files(handed, options.log_tail);
    }
}

/// A replay budget of `n` commits allows exactly the distances up to `n`; without a budget none is
/// allowed, and without a limit every one is.
pub proof fn law_replay_budgets(n: u64, distance: int)
    ensures
        IncrementalReplay::UpToCommits(n).allows(distance) <==> distance <= n,
        !IncrementalReplay::Disabled.allows(distance),
        IncrementalReplay::Unlimited.allows(distance),
{
}

/// The location that logs show is the one that was given, or else that of the existing snapshot.
pub proof fn law_shown_location<T>(options: SnapshotBuilderView<T>)
    ensures
        options.table_root is Some ==> options.table_path() == options.table_root->0@,
        options.table_root is None && options.existing_snapshot is Some ==> options.table_path()
            == options.existing_snapshot->0.table_configuration.table_root@,
{
}

/// The target that logs show is the requested version, or else the maximum catalog version, with a
/// note of that version where there is one; without either it is the latest.
pub proof fn law_shown_target<T>(options: SnapshotBuilderView<T>)
    ensures
        options.version is Some && options.max_catalog_version is None ==> options.target_version()
            == text::int_text(options.version->0 as int),
        options.version is Some && options.max_catalog_version is Some ==> options.target_version()
            == text::int_text(options.version->0 as int) + " (max_catalog_version="@
            + text::int_text(options.max_catalog_version->0 as int) + ")"@,
        options.version is None && options.max_catalog_version is Some ==> options.target_version()
            == text::int_text(options.max_catalog_version->0 as int) + " (max_catalog_version)"@,
        options.version is None && options.max_catalog_version is None ==> options.target_version()
            == "LATEST"@,
{
}

/// A build from a location is a full load, one from a snapshot an incremental one, and one with a
/// hint neither.
pub proof fn law_load_types<T>(options: SnapshotBuilderView<T>)
    ensures
        options.snapshot_hint is Some <==> options.load_type() == SnapshotLoadType::SnapshotHint,
        options.load_type() == SnapshotLoadType::Full <==> options.snapshot_hint is None
            && options.table_root is Some,
{
}

/// Of options that a hint does not go with the first of these is reported: a version beyond the
/// catalog, an existing snapshot, a log tail, incremental replay, and another version than the
/// hint's.
pub proof fn law_reported_option(options: HintOptions, hint_version: u64)
    requires
        !options.allow(hint_version),
    ensures
        ({
            let e = options.conflict(hint_version);
            let beyond = options.version is Some && options.max_catalog_version is Some
                && options.version->0 > options.max_catalog_version->0;
            let fresh = !beyond && !options.from_snapshot;
            let bare = fresh && options.log_tail_len == 0;
            let plain = bare && options.incremental_replay == IncrementalReplay::Disabled;
            &&& beyond ==> e == ErrorView::MaxCatalogVersion(
                "Requested version "@ + text::int_text(options.version->0 as int)
                    + " exceeds max catalog version "@ + text::int_text(
                    options.max_catalog_version->0 as int,
                ),
            )
            &&& !beyond && options.from_snapshot ==> e == ErrorView::InvalidSnapshotHint(
                "A snapshot hint cannot be used with Snapshot::builder_from"@,
            )
            &&& fresh && options.log_tail_len > 0 ==> e == ErrorView::InvalidSnapshotHint(
                "A snapshot hint cannot be combined with a log tail"@,
            )
            &&& bare && options.incremental_replay != IncrementalReplay::Disabled ==> e
                == ErrorView::InvalidSnapshotHint(
                "A snapshot hint cannot be combined with incremental CRC replay"@,
            )
            &&& plain && options.version is Some ==> options.version->0 != hint_version && e
                == ErrorView::InvalidSnapshotHint(
                "Requested version "@ + text::int_text(options.version->0 as int)
                    + " does not match snapshot hint version "@ + text::int_text(
                    hint_version as int,
                ),
            )
            &&& plain && options.version is None ==> options.max_catalog_version is Some
                && options.max_catalog_version->0 != hint_version && e
                == ErrorView::MaxCatalogVersion(
                "Max catalog version "@ + text::int_text(options.max_catalog_version->0 as int)
                    + " does not match snapshot hint version "@ + text::int_text(
                    hint_version as int,
                ),
            )
        }),
{
}

/// Of a log segment that a hint cannot use the first of these is reported: a version published
/// beyond the hint's, staged commits without a catalog version, and a missing start of the history.
pub proof fn law_reported_segment(
    segment: LogSegment,
    version: u64,
    files: LogSegmentFiles,
    max_catalog_version: Option<u64>,
)
    requires
        !hint::segment_valid(
            segment,
            version,
            hint::has_staged_commits(files),
            max_catalog_version,
        ),
    ensures
        ({
            let e = hint::segment_error(
                segment,
                version,
                hint::has_staged_commits(files),
                max_catalog_version,
            );
            let ahead = segment.listed.max_published_version is Some
                && segment.listed.max_published_version->0 > version;
            let unmanaged = lists_staged_commit(files) && max_catalog_version is None;
            &&& ahead ==> e == ErrorView::InvalidSnapshotHint(
                "max_published_version exceeds snapshot hint version "@ + text::int_text(
                    version as int,
                ),
            )
            &&& !ahead && unmanaged ==> e == ErrorView::MaxCatalogVersion(
                "Max catalog version is required when providing staged commits in the log tail. Use with_max_catalog_version()."@,
            )
            &&& !ahead && !unmanaged ==> !starts_at_the_beginning(segment) && e
                == ErrorView::InvalidSnapshotHint(
                "snapshot history does not start at version 0"@,
            )
        }),
{
}

/// Of a checksum state that is not of the hint the first of these is reported: another version,
/// another protocol, and other metadata.
pub proof fn law_reported_checksum(crc: Crc, version: u64, protocol: Protocol, metadata: Metadata)
    requires
        !hint::crc_matches(
            crc.deep_view(),
            version,
            protocol.deep_view(),
            metadata.deep_view(),
        ),
    ensures
        ({
            let e = hint::crc_mismatch(crc.deep_view(), version, protocol.deep_view());
            let same_protocol = crc.protocol.deep_view() == protocol.deep_view();
            &&& crc.version != version ==> e == ErrorView::InvalidSnapshotHint(
                "CRC version "@ + text::int_text(crc.version as int)
                    + " does not match snapshot hint version "@ + text::int_text(version as int),
            )
            &&& crc.version == version && !same_protocol ==> e == ErrorView::InvalidSnapshotHint(
                "CRC protocol does not match snapshot hint protocol"@,
            )
            &&& crc.version == version && same_protocol ==> crc.metadata.deep_view()
                != metadata.deep_view() && e == ErrorView::InvalidSnapshotHint(
                "CRC metadata does not match snapshot hint metadata"@,
            )
        }),
{
}

/// Of inputs that do not go together the first of these is reported: a gap in the log tail, staged
/// commits without a catalog version, a version beyond the catalog, and a log tail that ends early.
pub proof fn law_reported_input(
    version: Option<u64>,
    max_catalog_version: Option<u64>,
    tail: Seq<ParsedLogPath>,
    e: ErrorView,
)
    requires
        !catalog::inputs_valid(version, max_catalog_version, tail),
        catalog::reports_inputs(version, max_catalog_version, tail, e),
    ensures
        ({
            let gapless = forall|i: int, j: int|
                #![trigger tail[i], tail[j]]
                0 <= i < tail.len() && j == i + 1 && j < tail.len() ==> tail[i].version + 1
                    == tail[j].version;
            let staged = exists|i: int|
                0 <= i < tail.len() && (#[trigger] tail[i]).file_type
                    == LogPathFileType::StagedCommit;
            let managed = gapless && !(staged && max_catalog_version is None);
            let beyond = version is Some && max_catalog_version is Some && version->0
                > max_catalog_version->0;
            &&& !gapless ==> e is LogTailVersionsNotContiguous
            &&& gapless && !managed ==> e == ErrorView::MaxCatalogVersion(
                "Max catalog version is required when providing staged commits in the log tail. Use with_max_catalog_version()."@,
            )
            &&& managed && beyond ==> e == ErrorView::MaxCatalogVersion(
                "Requested version "@ + text::int_text(version->0 as int)
                    + " exceeds max catalog version "@ + text::int_text(
                    max_catalog_version->0 as int,
                ),
            )
            &&& managed && !beyond ==> tail.len() > 0 && max_catalog_version is Some
            &&& managed && !beyond && version is Some ==> tail[tail.len() - 1].version < version->0
                && e == ErrorView::MaxCatalogVersion(
                "Log tail version "@ + text::int_text(tail[tail.len() - 1].version as int)
                    + " is less than requested version "@ + text::int_text(version->0 as int)
                    + " for max catalog version "@ + text::int_text(max_catalog_version->0 as int),
            )
            &&& managed && !beyond && version is None ==> tail[tail.len() - 1].version
                != max_catalog_version->0 && e == ErrorView::MaxCatalogVersion(
                "Log tail version "@ + text::int_text(tail[tail.len() - 1].version as int)
                    + " does not match max catalog version "@ + text::int_text(
                    max_catalog_version->0 as int,
                ),
            )
        }),
{
    let gapless = forall|i: int, j: int|
        #![trigger tail[i], tail[j]]
        0 <= i < tail.len() && j == i + 1 && j < tail.len() ==> tail[i].version + 1
            == tail[j].version;
    if gapless {
        lemma_gapless(tail, tail.len() as int);
    } else if catalog::contiguous(tail) {
        let (i, j) = choose|i: int, j: int|
            #![trigger tail[i], tail[j]]
            0 <= i < tail.len() && j == i + 1 && j < tail.len() && tail[i].version + 1
                != tail[j].version;
        assert(tail[i].version == tail[0].version + i);
        assert(tail[j].version == tail[0].version + j);
    }
}

/// Versions that follow one another count up from the first.
proof fn lemma_gapless(tail: Seq<ParsedLogPath>, len: int)
    requires
        0 <= len <= tail.len(),
        forall|i: int, j: int|
            #![trigger tail[i], tail[j]]
            0 <= i < tail.len() && j == i + 1 && j < tail.len() ==> tail[i].version + 1
                == tail[j].version,
    ensures
        forall|i: int| 0 <= i < len ==> (#[trigger] tail[i]).version == tail[0].version + i,
    decreases len,
{
    if len > 1 {
        lemma_gapless(tail, len - 1);
        assert(tail[len - 2].version + 1 == tail[len - 1].version);
    }
}

/// A table that is managed by a catalog without a catalog version, and one that is not with a
/// catalog version, are reported as such.
pub proof fn law_reported_catalog(max_catalog_version: Option<u64>)
    ensures
        max_catalog_version is None ==> catalog::catalog_mismatch(max_catalog_version)
            == ErrorView::MaxCatalogVersion(
            "Max catalog version is required when loading a catalog-managed table. Use with_max_catalog_version()."@,
        ),
        max_catalog_version matches Some(v) ==> catalog::catalog_mismatch(max_catalog_version)
            == ErrorView::MaxCatalogVersion(
            "Max catalog version "@ + text::int_text(v as int)
                + " must not be set for a non-catalog-managed table"@,
        ),
{
}

/// What a build or a replay cannot do is named: log compaction files in a hint, commits without the
/// latest of them, and a checksum state ahead of the version to replay it to.
pub proof fn law_reported_limits(crc_version: u64, target_version: u64)
    ensures
        hint::compaction_unsupported() == ErrorView::Unsupported(
            "Snapshot hints cannot include log compaction files"@,
        ),
        hint::latest_commit_missing() == ErrorView::InvalidSnapshotHint(
            "latest_commit_file is required when commits are supplied"@,
        ),
        replay::crc_ahead(crc_version, target_version) == ErrorView::InternalError(
            "CRC version "@ + text::int_text(crc_version as int) + " is ahead of target version "@
                + text::int_text(target_version as int),
        ),
{
}

/// A builder starts out with its source and the operation it belongs to, and with nothing asked for:
/// no version, no log tail, no catalog version, no replay, no hint, no correlation, and no
/// cancellation.
pub proof fn law_fresh_builder<T>(
    table_root: Option<String>,
    existing_snapshot: Option<SnapshotRef>,
    operation_id: MetricId,
    options: SnapshotBuilderView<T>,
)
    requires
        builder::initial_options(table_root, existing_snapshot, operation_id, options),
    ensures
        options.table_root == table_root,
        options.existing_snapshot == existing_snapshot,
        options.operation_id == operation_id,
        options.correlation_id is None,
        options.version is None,
        options.max_catalog_version is None,
        options.log_tail@ == Seq::<LogPath>::empty(),
        options.incremental_replay == IncrementalReplay::Disabled,
        options.snapshot_hint is None,
        options.cancellation_token is None,
{
}

} // verus!
