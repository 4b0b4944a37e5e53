//! Building a snapshot from state that a connector supplies.

use std::sync::Arc;

use vstd::prelude::*;
use vstd::string::*;

use crate::actions::{Metadata, MetadataView, Protocol, ProtocolView};
use crate::crc::checksum::{Crc, CrcView};
use crate::data::Data;
use crate::error;
use crate::error::Error;
use crate::error::ErrorView;
use crate::log_files::{LogPathFileType, LogSegment, LogSegmentFiles};
use crate::snapshot::catalog;
use crate::snapshot::catalog::{
    any_staged, require_catalog_for_staged, validate_catalog_managed_build_inputs,
};
use crate::snapshot::engine::TableFormat;
use crate::snapshot::replay::IncrementalReplay;
use crate::snapshot::table_url;
use crate::snapshot::table_url::log_root;
use crate::snapshot::types::{
    Snapshot, SnapshotHint, SnapshotHintVersionStatus, SnapshotRef, TableConfiguration,
};
use crate::text;
use crate::text::{around_u64, join, u64_text};

verus! {

/// The options of a build that a hint may conflict with.
pub struct HintOptions {
    /// Whether the build starts from an existing snapshot.
    pub from_snapshot: bool,
    /// The requested version.
    pub version: Option<u64>,
    /// The length of the log tail.
    pub log_tail_len: usize,
    /// The maximum catalog version.
    pub max_catalog_version: Option<u64>,
    /// How far a stale checksum state may be replayed.
    pub incremental_replay: IncrementalReplay,
}

impl HintOptions {
    /// Whether a hint for `hint_version` can be used with the options.
    pub open spec fn allow(self, hint_version: u64) -> bool {
        &&& catalog::within_catalog(self.version, self.max_catalog_version)
        &&& !self.from_snapshot
        &&& self.log_tail_len == 0
        &&& self.incremental_replay == IncrementalReplay::Disabled
        &&& match self.version {
            Some(version) => version == hint_version,
            None => self.max_catalog_version matches Some(v) ==> v == hint_version,
        }
    }

    /// The error for the first option that a hint for `hint_version` conflicts with.
    pub open spec fn conflict(self, hint_version: u64) -> ErrorView {
        if !catalog::within_catalog(self.version, self.max_catalog_version) {
            catalog::beyond_catalog(self.version->0, self.max_catalog_version->0)
        } else if self.from_snapshot {
            ErrorView::InvalidSnapshotHint(
                "A snapshot hint cannot be used with Snapshot::builder_from"@,
            )
        } else if self.log_tail_len != 0 {
            ErrorView::InvalidSnapshotHint("A snapshot hint cannot be combined with a log tail"@)
        } else if self.incremental_replay != IncrementalReplay::Disabled {
            ErrorView::InvalidSnapshotHint(
                "A snapshot hint cannot be combined with incremental CRC replay"@,
            )
        } else if self.version is Some {
            ErrorView::InvalidSnapshotHint(
                "Requested version "@ + text::int_text(self.version->0 as int)
                    + " does not match snapshot hint version "@ + text::int_text(
                    hint_version as int,
                ),
            )
        } else {
            ErrorView::MaxCatalogVersion(
                "Max catalog version "@ + text::int_text(self.max_catalog_version->0 as int)
                    + " does not match snapshot hint version "@ + text::int_text(
                    hint_version as int,
                ),
            )
        }
    }

    /// Checks that a hint for `hint_version` can be used with the options.
    pub fn check(&self, hint_version: u64) -> (res: Result<(), Error>)
        ensures
            match res {
                Ok(()) => self.allow(hint_version),
                Err(e) => !self.allow(hint_version) && e.deep_view() == self.conflict(hint_version),
            },
    {
        if let Err(e) = validate_catalog_managed_build_inputs(
            self.version,
            self.max_catalog_version,
            &Vec::new(),
        ) {
            return Err(e);
        }
        if self.from_snapshot {
            return Err(
                Error::InvalidSnapshotHint(
                    String::from_str("A snapshot hint cannot be used with Snapshot::builder_from"),
                ),
            );
        }
        if self.log_tail_len != 0 {
            return Err(
                Error::InvalidSnapshotHint(
                    String::from_str("A snapshot hint cannot be combined with a log tail"),
                ),
            );
        }
        if self.incremental_replay != IncrementalReplay::Disabled {
            return Err(
                Error::InvalidSnapshotHint(
                    String::from_str(
                        "A snapshot hint cannot be combined with incremental CRC replay",
                    ),
                ),
            );
        }
        if let Some(version) = self.version {
            if version != hint_version {
                let head = around_u64(
                    "Requested version ",
                    version,
                    " does not match snapshot hint version ",
                );
                return Err(
                    Error::InvalidSnapshotHint(
                        join(head.as_str(), u64_text(hint_version).as_str()),
                    ),
                );
            }
        } else if let Some(max_catalog_version) = self.max_catalog_version {
            if max_catalog_version != hint_version {
                let head = around_u64(
                    "Max catalog version ",
                    max_catalog_version,
                    " does not match snapshot hint version ",
                );
                return Err(
                    Error::MaxCatalogVersion(join(head.as_str(), u64_text(hint_version).as_str())),
                );
            }
        }
        Ok(())
    }
}

/// Whether a staged commit is among the commits.
pub open spec fn has_staged_commits(files: LogSegmentFiles) -> bool {
    catalog::has_staged(files.ascending_commit_files@) || (files.latest_commit_file matches Some(
        path,
    ) && path.file_type == LogPathFileType::StagedCommit)
}

/// Whether a staged commit is among the commits.
pub fn any_staged_commits(files: &LogSegmentFiles) -> (res: bool)
    ensures
        res == has_staged_commits(*files),
{
    if any_staged(&files.ascending_commit_files) {
        return true;
    }
    match &files.latest_commit_file {
        Some(path) => path.file_type == LogPathFileType::StagedCommit,
        None => false,
    }
}

/// The error for a hint with compacted commits.
pub open spec fn compaction_unsupported() -> ErrorView {
    ErrorView::Unsupported("Snapshot hints cannot include log compaction files"@)
}

/// Rejects compacted commits.
pub fn reject_compaction(files: &LogSegmentFiles) -> (res: Result<(), Error>)
    ensures
        match res {
            Ok(()) => files.ascending_compaction_files@.len() == 0,
            Err(e) => files.ascending_compaction_files@.len() > 0 && e.deep_view()
                == compaction_unsupported(),
        },
{
    if files.ascending_compaction_files.len() > 0 {
        return Err(
            Error::Unsupported(
                String::from_str("Snapshot hints cannot include log compaction files"),
            ),
        );
    }
    Ok(())
}

/// The error for commits without the commit of the version itself.
pub open spec fn latest_commit_missing() -> ErrorView {
    ErrorView::InvalidSnapshotHint("latest_commit_file is required when commits are supplied"@)
}

/// Whether the commit of the version itself is there wherever there are commits.
pub open spec fn latest_commit_present(files: LogSegmentFiles) -> bool {
    files.ascending_commit_files@.len() > 0 ==> files.latest_commit_file is Some
}

/// Requires the commit of the version itself where there are commits.
pub fn require_latest_commit(files: &LogSegmentFiles) -> (res: Result<(), Error>)
    ensures
        match res {
            Ok(()) => latest_commit_present(*files),
            Err(e) => !latest_commit_present(*files) && e.deep_view() == latest_commit_missing(),
        },
{
    if files.ascending_commit_files.len() > 0 && files.latest_commit_file.is_none() {
        return Err(
            Error::InvalidSnapshotHint(
                String::from_str("latest_commit_file is required when commits are supplied"),
            ),
        );
    }
    Ok(())
}

/// Reports an error about a log segment as one about the hint, without a backtrace and without
/// the wording of an internal error.
pub fn invalid_snapshot_hint_from_log_segment_error(error: Error) -> (res: Error)
    ensures
        res.deep_view() == ErrorView::InvalidSnapshotHint(error.deep_view().hint_message()),
{
    Error::InvalidSnapshotHint(error.into_hint_message())
}

/// Whether nothing was published after `version`.
pub open spec fn published_within(segment: LogSegment, version: u64) -> bool {
    segment.listed.max_published_version matches Some(v) ==> v <= version
}

/// Whether the history is complete: from a checkpoint, or from version zero.
pub open spec fn history_complete(segment: LogSegment) -> bool {
    segment.checkpoint_version is Some || (segment.listed.ascending_commit_files@.len() > 0
        && segment.listed.ascending_commit_files@[0].version == 0)
}

/// Whether a log segment can make up a hint for `version`.
pub open spec fn segment_valid(
    segment: LogSegment,
    version: u64,
    staged: bool,
    max_catalog_version: Option<u64>,
) -> bool {
    &&& published_within(segment, version)
    &&& staged ==> max_catalog_version is Some
    &&& history_complete(segment)
}

/// The error for the first rule that a log segment breaks.
pub open spec fn segment_error(
    segment: LogSegment,
    version: u64,
    staged: bool,
    max_catalog_version: Option<u64>,
) -> ErrorView {
    if !published_within(segment, version) {
        ErrorView::InvalidSnapshotHint(
            "max_published_version exceeds snapshot hint version "@ + text::int_text(
                version as int,
            ),
        )
    } else if staged && max_catalog_version is None {
        catalog::staged_without_catalog()
    } else {
        ErrorView::InvalidSnapshotHint("snapshot history does not start at version 0"@)
    }
}

/// Checks that a log segment can make up a hint for `version`.
pub fn check_segment(
    segment: &LogSegment,
    version: u64,
    staged: bool,
    max_catalog_version: Option<u64>,
) -> (res: Result<(), Error>)
    ensures
        match res {
            Ok(()) => segment_valid(*segment, version, staged, max_catalog_version),
            Err(e) => !segment_valid(*segment, version, staged, max_catalog_version)
                && e.deep_view() == segment_error(*segment, version, staged, max_catalog_version),
        },
{
    if let Some(published_version) = segment.listed.max_published_version {
        if published_version > version {
            return Err(
                Error::InvalidSnapshotHint(
                    join(
                        "max_published_version exceeds snapshot hint version ",
                        u64_text(version).as_str(),
                    ),
                ),
            );
        }
    }
    if let Err(e) = require_catalog_for_staged(staged, max_catalog_version) {
        return Err(e);
    }
    let commits = &segment.listed.ascending_commit_files;
    let from_zero = commits.len() > 0 && commits[0].version == 0;
    if segment.checkpoint_version.is_none() && !from_zero {
        return Err(
            Error::InvalidSnapshotHint(
                String::from_str("snapshot history does not start at version 0"),
            ),
        );
    }
    Ok(())
}

/// Whether a checksum state describes the table that the hint describes.
pub open spec fn crc_matches(
    crc: CrcView,
    version: u64,
    protocol: ProtocolView,
    metadata: MetadataView,
) -> bool {
    crc.version == version && crc.protocol == protocol && crc.metadata == metadata
}

/// The error for the first part of a checksum state that does not match.
pub open spec fn crc_mismatch(crc: CrcView, version: u64, protocol: ProtocolView) -> ErrorView {
    if crc.version != version {
        ErrorView::InvalidSnapshotHint(
            "CRC version "@ + text::int_text(crc.version as int)
                + " does not match snapshot hint version "@ + text::int_text(version as int),
        )
    } else if crc.protocol != protocol {
        ErrorView::InvalidSnapshotHint("CRC protocol does not match snapshot hint protocol"@)
    } else {
        ErrorView::InvalidSnapshotHint("CRC metadata does not match snapshot hint metadata"@)
    }
}

/// Checks that a checksum state describes the table that the hint describes.
pub fn check_crc(crc: &Crc, version: u64, protocol: &Protocol, metadata: &Metadata) -> (res: Result<
    (),
    Error,
>)
    ensures
        ({
            let matches = crc_matches(
                crc.deep_view(),
                version,
                protocol.deep_view(),
                metadata.deep_view(),
            );
            match res {
                Ok(()) => matches,
                Err(e) => !matches && e.deep_view() == crc_mismatch(
                    crc.deep_view(),
                    version,
                    protocol.deep_view(),
                ),
            }
        }),
{
    if crc.version != version {
        let head = around_u64(
            "CRC version ",
            crc.version,
            " does not match snapshot hint version ",
        );
        return Err(Error::InvalidSnapshotHint(join(head.as_str(), u64_text(version).as_str())));
    }
    if !crc.protocol.same(protocol) {
        return Err(
            Error::InvalidSnapshotHint(
                String::from_str("CRC protocol does not match snapshot hint protocol"),
            ),
        );
    }
    if !crc.metadata.same(metadata) {
        return Err(
            Error::InvalidSnapshotHint(
                String::from_str("CRC metadata does not match snapshot hint metadata"),
            ),
        );
    }
    Ok(())
}

/// The snapshot that a hint describes, for a log segment and a table URL.
pub open spec fn hinted_snapshot(
    hint: SnapshotHint,
    segment: LogSegment,
    table_root: String,
    catalog_managed: bool,
) -> Snapshot {
    Snapshot {
        log_segment: segment,
        table_configuration: TableConfiguration {
            metadata: hint.metadata,
            protocol: hint.protocol,
            table_root,
            version: hint.version,
            catalog_managed,
        },
        crc: hint.crc,
        built_as_latest: hint.version_status == SnapshotHintVersionStatus::Latest,
    }
}

/// Whether `res` is what a hint gives once the table format has answered for the metadata and
/// protocol.
pub open spec fn configured_build<F: TableFormat>(
    format: &F,
    hint: SnapshotHint,
    table_root: String,
    segment: LogSegment,
    configured: Result<bool, Error>,
    res: Result<SnapshotRef, Error>,
) -> bool {
    match configured {
        Err(e) => res == Err::<SnapshotRef, Error>(e),
        Ok(catalog_managed) => {
            let snapshot = hinted_snapshot(hint, segment, table_root, catalog_managed);
            if hint.crc is Some && !crc_matches(
                hint.crc->0.deep_view(),
                hint.version,
                hint.protocol.deep_view(),
                hint.metadata.deep_view(),
            ) {
                error::fails(
                    res,
                    crc_mismatch(
                        hint.crc->0.deep_view(),
                        hint.version,
                        hint.protocol.deep_view(),
                    ),
                )
            } else {
                exists|checked: Result<(), Error>| #[trigger]
                    call_ensures(
                        F::check_snapshot,
                        (format, &segment, &snapshot.table_configuration, &hint.crc),
                        checked,
                    ) && match checked {
                        Err(e) => res == Err::<SnapshotRef, Error>(e),
                        Ok(()) => res matches Ok(built) && *built == snapshot,
                    }
            }
        },
    }
}

/// Whether `res` is what a hint gives once the table format has answered for the log segment.
pub open spec fn segment_build<F: TableFormat>(
    format: &F,
    hint: SnapshotHint,
    max_catalog_version: Option<u64>,
    table_root: String,
    outcome: Result<LogSegment, Error>,
    res: Result<SnapshotRef, Error>,
) -> bool {
    match outcome {
        Err(e) => error::fails(res, ErrorView::InvalidSnapshotHint(e.deep_view().hint_message())),
        Ok(segment) => {
            let staged = has_staged_commits(hint.log_segment_files);
            if !segment_valid(segment, hint.version, staged, max_catalog_version) {
                error::fails(res, segment_error(segment, hint.version, staged, max_catalog_version))
            } else {
                exists|configured: Result<bool, Error>| #[trigger]
                    call_ensures(
                        F::catalog_managed,
                        (format, &hint.metadata, &hint.protocol, &table_root, hint.version),
                        configured,
                    ) && configured_build(format, hint, table_root, segment, configured, res)
            }
        },
    }
}

/// Whether `res` is what a hint gives once the table format has answered for the log files.
pub open spec fn paths_build<F: TableFormat>(
    format: &F,
    hint: SnapshotHint,
    max_catalog_version: Option<u64>,
    table_root: String,
    log_root: String,
    checked: Result<(), Error>,
    res: Result<SnapshotRef, Error>,
) -> bool {
    match checked {
        Err(e) => res == Err::<SnapshotRef, Error>(e),
        Ok(()) => if !latest_commit_present(hint.log_segment_files) {
            error::fails(res, latest_commit_missing())
        } else {
            exists|outcome: Result<LogSegment, Error>| #[trigger]
                call_ensures(
                    F::log_segment,
                    (
                        format,
                        hint.log_segment_files,
                        log_root,
                        Some(hint.version),
                        hint.last_checkpoint_hint,
                    ),
                    outcome,
                ) && segment_build(format, hint, max_catalog_version, table_root, outcome, res)
        },
    }
}

/// Whether `res` is what a hint gives at a table URL.
pub open spec fn located_build<F: TableFormat>(
    format: &F,
    hint: SnapshotHint,
    max_catalog_version: Option<u64>,
    located: Result<String, Error>,
    res: Result<SnapshotRef, Error>,
) -> bool {
    match located {
        Err(e) => res == Err::<SnapshotRef, Error>(e),
        Ok(table_root) => match table_url::joined_url(table_root@, "_delta_log/"@) {
            Err(message) => error::fails(res, ErrorView::InvalidUrl(message)),
            Ok(log_root) => if hint.log_segment_files.ascending_compaction_files@.len() > 0 {
                error::fails(res, compaction_unsupported())
            } else {
                exists|root: String, checked: Result<(), Error>|
                    root@ == log_root && #[trigger] call_ensures(
                        F::validate_log_path_fields,
                        (format, &hint.log_segment_files),
                        checked,
                    ) && #[trigger] paths_build(
                        format,
                        hint,
                        max_catalog_version,
                        table_root,
                        root,
                        checked,
                        res,
                    )
            },
        },
    }
}

/// Whether `res` is what a hint gives with these options.
pub open spec fn hint_build<F: TableFormat>(
    format: &F,
    table_root: Option<String>,
    options: HintOptions,
    hint: SnapshotHint,
    res: Result<SnapshotRef, Error>,
) -> bool {
    if !options.allow(hint.version) {
        error::fails(res, options.conflict(hint.version))
    } else {
        match table_root {
            None => error::fails(
                res,
                ErrorView::InternalError(
                    "SnapshotBuilder with a snapshot hint must have a table root"@,
                ),
            ),
            Some(root) => exists|located: Result<String, Error>| #[trigger]
                call_ensures(F::parse_table_root, (format, &root), located) && located_build(
                    format,
                    hint,
                    options.max_catalog_version,
                    located,
                    res,
                ),
        }
    }
}

/// A snapshot that a hint gives has the version, protocol, metadata and checksum state of the
/// hint, and is the latest exactly where the connector claims so.
pub proof fn law_hinted_snapshot_is_the_hint<F: TableFormat>(
    format: &F,
    table_root: Option<String>,
    options: HintOptions,
    hint: SnapshotHint,
    snapshot: SnapshotRef,
)
    requires
        hint_build(format, table_root, options, hint, Ok::<SnapshotRef, Error>(snapshot)),
    ensures
        snapshot.table_configuration.version == hint.version,
        snapshot.table_configuration.protocol == hint.protocol,
        snapshot.table_configuration.metadata == hint.metadata,
        snapshot.crc == hint.crc,
        snapshot.built_as_latest == (hint.version_status == SnapshotHintVersionStatus::Latest),
        hint.crc matches Some(crc) ==> crc_matches(
            crc.deep_view(),
            hint.version,
            hint.protocol.deep_view(),
            hint.metadata.deep_view(),
        ),
        history_complete(snapshot.log_segment),
        published_within(snapshot.log_segment, hint.version),
        has_staged_commits(hint.log_segment_files) ==> options.max_catalog_version is Some,
        options.version matches Some(version) ==> version == hint.version,
{
}

fn build_at<F: TableFormat>(
    format: &F,
    hint: SnapshotHint,
    max_catalog_version: Option<u64>,
    table_root: String,
) -> (res: Result<SnapshotRef, Error>)
    ensures
        located_build(format, hint, max_catalog_version, Ok::<String, Error>(table_root), res),
{
    let log_directory = match log_root(&table_root) {
        Ok(log_directory) => log_directory,
        Err(e) => {
            return Err(e);
        },
    };
    let staged = any_staged_commits(&hint.log_segment_files);
    if let Err(e) = reject_compaction(&hint.log_segment_files) {
        return Err(e);
    }
    let checked = format.validate_log_path_fields(&hint.log_segment_files);
    let res = match checked {
        Err(e) => Err(e),
        Ok(()) => build_from_files(
            format,
            hint,
            max_catalog_version,
            staged,
            table_root,
            log_directory,
        ),
    };
    assert(call_ensures(
        F::validate_log_path_fields,
        (format, &hint.log_segment_files),
        checked,
    ));
    assert(paths_build(
        format,
        hint,
        max_catalog_version,
        table_root,
        log_directory,
        checked,
        res,
    ));
    res
}

fn build_from_files<F: TableFormat>(
    format: &F,
    hint: SnapshotHint,
    max_catalog_version: Option<u64>,
    staged: bool,
    table_root: String,
    log_directory: String,
) -> (res: Result<SnapshotRef, Error>)
    requires
        staged == has_staged_commits(hint.log_segment_files),
    ensures
        paths_build(
            format,
            hint,
            max_catalog_version,
            table_root,
            log_directory,
            Ok::<(), Error>(()),
            res,
        ),
{
    if let Err(e) = require_latest_commit(&hint.log_segment_files) {
        return Err(e);
    }
    let ghost given = hint;
    let SnapshotHint {
        version,
        log_segment_files,
        protocol,
        metadata,
        last_checkpoint_hint,
        crc,
        version_status,
    } = hint;
    let outcome = format.log_segment(
        log_segment_files,
        log_directory,
        Some(version),
        last_checkpoint_hint,
    );
    let ghost answered = outcome;
    assert(call_ensures(
        F::log_segment,
        (
            format,
            given.log_segment_files,
            log_directory,
            Some(given.version),
            given.last_checkpoint_hint,
        ),
        answered,
    ));
    let log_segment = match outcome {
        Ok(log_segment) => log_segment,
        Err(e) => {
            let res = Err(invalid_snapshot_hint_from_log_segment_error(e));
            assert(segment_build(format, given, max_catalog_version, table_root, answered, res));
            return res;
        },
    };
    if let Err(e) = check_segment(&log_segment, version, staged, max_catalog_version) {
        let res = Err(e);
        assert(segment_build(format, given, max_catalog_version, table_root, answered, res));
        return res;
    }
    let configured = format.catalog_managed(&metadata, &protocol, &table_root, version);
    let ghost answer = configured;
    assert(call_ensures(
        F::catalog_managed,
        (format, &given.metadata, &given.protocol, &table_root, given.version),
        answer,
    ));
    let catalog_managed = match configured {
        Ok(catalog_managed) => catalog_managed,
        Err(e) => {
            let res = Err(e);
            assert(configured_build(format, given, table_root, log_segment, answer, res));
            assert(segment_build(format, given, max_catalog_version, table_root, answered, res));
            return res;
        },
    };
    if let Some(state) = &crc {
        if let Err(e) = check_crc(state, version, &protocol, &metadata) {
            let res = Err(e);
            assert(configured_build(format, given, table_root, log_segment, answer, res));
            assert(segment_build(format, given, max_catalog_version, table_root, answered, res));
            return res;
        }
    }
    let ghost root = table_root;
    let table_configuration = TableConfiguration {
        metadata,
        protocol,
        table_root,
        version,
        catalog_managed,
    };
    let checked = format.check_snapshot(&log_segment, &table_configuration, &crc);
    let ghost snapshot = hinted_snapshot(given, log_segment, root, catalog_managed);
    let ghost segment = log_segment;
    assert(call_ensures(
        F::check_snapshot,
        (format, &segment, &snapshot.table_configuration, &given.crc),
        checked,
    ));
    let res = match checked {
        Err(e) => Err(e),
        Ok(()) => Ok(
            Arc::new(
                Snapshot {
                    log_segment,
                    table_configuration,
                    crc,
                    built_as_latest: version_status == SnapshotHintVersionStatus::Latest,
                },
            ),
        ),
    };
    assert(configured_build(format, given, root, segment, answer, res));
    assert(segment_build(format, given, max_catalog_version, root, answered, res));
    res
}

/// Builds the snapshot that a hint describes, without reading storage.
pub fn build_from_snapshot_hint<F: TableFormat>(
    format: &F,
    table_root: Option<String>,
    options: HintOptions,
    hint: SnapshotHint,
) -> (res: Result<SnapshotRef, Error>)
    ensures
        hint_build(format, table_root, options, hint, res),
{
    if let Err(e) = options.check(hint.version) {
        return Err(e);
    }
    let root = match table_root {
        Some(root) => root,
        None => {
            return Err(
                Error::InternalError(
                    String::from_str(
                        "SnapshotBuilder with a snapshot hint must have a table root",
                    ),
                ),
            );
        },
    };
    let located = format.parse_table_root(&root);
    let ghost answered = located;
    assert(call_ensures(F::parse_table_root, (format, &root), answered));
    let res = match located {
        Ok(table_url) => build_at(format, hint, options.max_catalog_version, table_url),
        Err(e) => Err(e),
    };
    assert(located_build(format, hint, options.max_catalog_version, answered, res));
    res
}

} // verus!
