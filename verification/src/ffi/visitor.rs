//! Building a snapshot hint one component at a time.

use std::sync::Arc;

use vstd::prelude::*;
use vstd::string::*;

use crate::actions::{Metadata, Protocol};
use crate::crc::checksum::Crc;
use crate::data::Data;
use crate::error;
use crate::error::Error;
use crate::error::ErrorView;
use crate::ffi::components;
use crate::ffi::components::{crc, last_checkpoint, metadata, protocol};
use crate::ffi::convert;
use crate::ffi::convert::{invalid, invalid_from_error, parse_version_status};
use crate::ffi::values::{
    FfiSnapshotHintCrc, FfiSnapshotHintLastCheckpoint, FfiSnapshotHintMetadata,
    FfiSnapshotHintProtocol, FfiSnapshotHintVersionStatus, SNAPSHOT_HINT_VERSION_STATUS_LATEST,
    SNAPSHOT_HINT_VERSION_STATUS_UNVERIFIED,
};
use crate::last_checkpoint::LastCheckpointHint;
use crate::log_files::{LogPath, LogSegmentFiles};
use crate::snapshot::engine::TableFormat;
use crate::snapshot::types::{SnapshotHint, SnapshotHintVersionStatus};

verus! {

/// The components of a hint that have been supplied so far.
pub struct SnapshotHintVisitorState {
    /// The version of the hint.
    pub version: u64,
    /// Whether the version was the latest.
    pub version_status: SnapshotHintVersionStatus,
    /// Every log file that the snapshot needs.
    pub log_paths: Option<Vec<LogPath>>,
    /// The table protocol.
    pub protocol: Option<Protocol>,
    /// The table metadata.
    pub metadata: Option<Metadata>,
    /// The contents of the `_last_checkpoint` file.
    pub last_checkpoint_hint: Option<LastCheckpointHint>,
    /// The checksum state.
    pub crc: Option<Arc<Crc>>,
}

/// How far the hint of a builder has come.
pub enum FfiSnapshotHintState {
    /// There is none.
    Absent,
    /// Components are being supplied.
    Building(SnapshotHintVisitorState),
    /// The hint is complete.
    Ready(SnapshotHint),
}

/// The part of a snapshot builder that holds the hint.
pub struct FfiSnapshotBuilder {
    /// How far the hint has come.
    pub snapshot_hint: FfiSnapshotHintState,
}

/// The error for a component that comes before the hint was begun.
pub open spec fn not_started() -> ErrorView {
    ErrorView::InvalidSnapshotHint("snapshot hint visitor has not been started"@)
}

fn not_started_error() -> (res: Error)
    ensures
        res.deep_view() == not_started(),
{
    invalid(String::from_str("snapshot hint visitor has not been started"))
}

/// A hint of which nothing but the version is known.
pub open spec fn begun(
    version: u64,
    version_status: SnapshotHintVersionStatus,
) -> FfiSnapshotHintState {
    FfiSnapshotHintState::Building(
        SnapshotHintVisitorState {
            version,
            version_status,
            log_paths: None,
            protocol: None,
            metadata: None,
            last_checkpoint_hint: None,
            crc: None,
        },
    )
}

/// Begins a hint. One that was begun before is discarded, unless the freshness claim is unknown.
pub fn snapshot_builder_snapshot_hint_begin(
    builder: &mut FfiSnapshotBuilder,
    version: u64,
    version_status: FfiSnapshotHintVersionStatus,
) -> (res: Result<bool, Error>)
    ensures
        match res {
            Ok(done) => done && (version_status == SNAPSHOT_HINT_VERSION_STATUS_UNVERIFIED
                && final(builder).snapshot_hint == begun(
                version,
                SnapshotHintVersionStatus::Unverified,
            ) || version_status == SNAPSHOT_HINT_VERSION_STATUS_LATEST
                && final(builder).snapshot_hint == begun(
                version,
                SnapshotHintVersionStatus::Latest,
            )),
            Err(e) => *final(builder) == *old(builder) && version_status
                != SNAPSHOT_HINT_VERSION_STATUS_UNVERIFIED && version_status
                != SNAPSHOT_HINT_VERSION_STATUS_LATEST && e.deep_view() == convert::unknown_status(
                version_status,
            ),
        },
{
    match parse_version_status(version_status) {
        Ok(status) => {
            builder.snapshot_hint = FfiSnapshotHintState::Building(
                SnapshotHintVisitorState {
                    version,
                    version_status: status,
                    log_paths: None,
                    protocol: None,
                    metadata: None,
                    last_checkpoint_hint: None,
                    crc: None,
                },
            );
            Ok(true)
        },
        Err(e) => Err(e),
    }
}

/// What supplying a component does: an error of the component, or a hint that was not begun,
/// leaves the hint as it was; otherwise the hint goes on as `next`.
pub open spec fn supplied<T>(
    component: Result<T, Error>,
    before: FfiSnapshotHintState,
    next: spec_fn(SnapshotHintVisitorState, T) -> SnapshotHintVisitorState,
    after: FfiSnapshotHintState,
    res: Result<bool, Error>,
) -> bool {
    match (component, before) {
        (Err(e), _) => res == Err::<bool, Error>(e) && after == before,
        (Ok(value), FfiSnapshotHintState::Building(state)) => res == Ok::<bool, Error>(true)
            && after == FfiSnapshotHintState::Building(next(state, value)),
        (Ok(_), _) => error::fails(res, not_started()) && after == before,
    }
}

/// What supplying the log paths does: an error of reading them is reported as an invalid hint.
pub open spec fn paths_supplied(
    log_paths: Result<Vec<LogPath>, Error>,
    before: FfiSnapshotHintState,
    after: FfiSnapshotHintState,
    res: Result<bool, Error>,
) -> bool {
    match log_paths {
        Err(e) => error::fails(res, ErrorView::InvalidSnapshotHint(e.deep_view().hint_message()))
            && after == before,
        Ok(_) => supplied(log_paths, before, with_log_paths(), after, res),
    }
}

/// A hint with these log paths.
pub open spec fn with_log_paths() -> spec_fn(
    SnapshotHintVisitorState,
    Vec<LogPath>,
) -> SnapshotHintVisitorState {
    |state: SnapshotHintVisitorState, paths: Vec<LogPath>|
        SnapshotHintVisitorState { log_paths: Some(paths), ..state }
}

/// A hint with this protocol.
pub open spec fn with_protocol() -> spec_fn(
    SnapshotHintVisitorState,
    Protocol,
) -> SnapshotHintVisitorState {
    |state: SnapshotHintVisitorState, value: Protocol|
        SnapshotHintVisitorState { protocol: Some(value), ..state }
}

/// A hint with this metadata.
pub open spec fn with_metadata() -> spec_fn(
    SnapshotHintVisitorState,
    Metadata,
) -> SnapshotHintVisitorState {
    |state: SnapshotHintVisitorState, value: Metadata|
        SnapshotHintVisitorState { metadata: Some(value), ..state }
}

/// A hint with these contents of a `_last_checkpoint` file.
pub open spec fn with_last_checkpoint() -> spec_fn(
    SnapshotHintVisitorState,
    LastCheckpointHint,
) -> SnapshotHintVisitorState {
    |state: SnapshotHintVisitorState, value: LastCheckpointHint|
        SnapshotHintVisitorState { last_checkpoint_hint: Some(value), ..state }
}

fn take_state(builder: &mut FfiSnapshotBuilder) -> (res: FfiSnapshotHintState)
    ensures
        res == old(builder).snapshot_hint,
        final(builder).snapshot_hint == FfiSnapshotHintState::Absent,
{
    let mut state = FfiSnapshotHintState::Absent;
    std::mem::swap(&mut state, &mut builder.snapshot_hint);
    state
}

/// Supplies the log paths, or the error of reading them, which is reported as an invalid hint.
pub fn snapshot_builder_snapshot_hint_set_log_paths(
    builder: &mut FfiSnapshotBuilder,
    log_paths: Result<Vec<LogPath>, Error>,
) -> (res: Result<bool, Error>)
    ensures
        paths_supplied(
            log_paths,
            old(builder).snapshot_hint,
            final(builder).snapshot_hint,
            res,
        ),
{
    let value = match log_paths {
        Ok(value) => value,
        Err(e) => {
            return Err(invalid_from_error(e));
        },
    };
    match take_state(builder) {
        FfiSnapshotHintState::Building(state) => {
            let next = SnapshotHintVisitorState { log_paths: Some(value), ..state };
            builder.snapshot_hint = FfiSnapshotHintState::Building(next);
            Ok(true)
        },
        other => {
            builder.snapshot_hint = other;
            Err(not_started_error())
        },
    }
}

/// Supplies the protocol, or the error of reading it.
pub fn install_protocol(
    builder: &mut FfiSnapshotBuilder,
    component: Result<Protocol, Error>,
) -> (res: Result<bool, Error>)
    ensures
        supplied(
            component,
            old(builder).snapshot_hint,
            with_protocol(),
            final(builder).snapshot_hint,
            res,
        ),
{
    let value = match component {
        Ok(value) => value,
        Err(e) => {
            return Err(e);
        },
    };
    match take_state(builder) {
        FfiSnapshotHintState::Building(state) => {
            let next = SnapshotHintVisitorState { protocol: Some(value), ..state };
            builder.snapshot_hint = FfiSnapshotHintState::Building(next);
            Ok(true)
        },
        other => {
            builder.snapshot_hint = other;
            Err(not_started_error())
        },
    }
}

/// Supplies the protocol.
pub fn snapshot_builder_snapshot_hint_set_protocol<F: TableFormat>(
    builder: &mut FfiSnapshotBuilder,
    format: &F,
    value: &FfiSnapshotHintProtocol,
) -> (res: Result<bool, Error>)
    ensures
        exists|component: Result<Protocol, Error>| #[trigger]
            components::protocol_read(format, *value, component) && supplied(
                component,
                old(builder).snapshot_hint,
                with_protocol(),
                final(builder).snapshot_hint,
                res,
            ),
{
    let component = protocol(format, value);
    let ghost read = component;
    assert(components::protocol_read(format, *value, read));
    install_protocol(builder, component)
}

/// Supplies the metadata.
pub fn snapshot_builder_snapshot_hint_set_metadata(
    builder: &mut FfiSnapshotBuilder,
    value: &FfiSnapshotHintMetadata,
) -> (res: Result<bool, Error>)
    ensures
        exists|component: Result<Metadata, Error>| #[trigger]
            convert::reads(
                components::metadata_error(*value),
                components::metadata_value(*value),
                component,
            ) && supplied(
                component,
                old(builder).snapshot_hint,
                with_metadata(),
                final(builder).snapshot_hint,
                res,
            ),
{
    let component = metadata(value);
    let ghost read = component;
    assert(convert::reads(
        components::metadata_error(*value),
        components::metadata_value(*value),
        read,
    ));
    let supplied_value = match component {
        Ok(supplied_value) => supplied_value,
        Err(e) => {
            return Err(e);
        },
    };
    match take_state(builder) {
        FfiSnapshotHintState::Building(state) => {
            let next = SnapshotHintVisitorState { metadata: Some(supplied_value), ..state };
            builder.snapshot_hint = FfiSnapshotHintState::Building(next);
            Ok(true)
        },
        other => {
            builder.snapshot_hint = other;
            Err(not_started_error())
        },
    }
}

/// Supplies the contents of a `_last_checkpoint` file, or the error of reading them.
pub fn install_last_checkpoint(
    builder: &mut FfiSnapshotBuilder,
    component: Result<LastCheckpointHint, Error>,
) -> (res: Result<bool, Error>)
    ensures
        supplied(
            component,
            old(builder).snapshot_hint,
            with_last_checkpoint(),
            final(builder).snapshot_hint,
            res,
        ),
{
    let value = match component {
        Ok(value) => value,
        Err(e) => {
            return Err(e);
        },
    };
    match take_state(builder) {
        FfiSnapshotHintState::Building(state) => {
            let next = SnapshotHintVisitorState { last_checkpoint_hint: Some(value), ..state };
            builder.snapshot_hint = FfiSnapshotHintState::Building(next);
            Ok(true)
        },
        other => {
            builder.snapshot_hint = other;
            Err(not_started_error())
        },
    }
}

/// Supplies the contents of a `_last_checkpoint` file.
pub fn snapshot_builder_snapshot_hint_set_last_checkpoint<F: TableFormat>(
    builder: &mut FfiSnapshotBuilder,
    format: &F,
    value: &FfiSnapshotHintLastCheckpoint,
) -> (res: Result<bool, Error>)
    ensures
        exists|component: Result<LastCheckpointHint, Error>| #[trigger]
            components::last_checkpoint_read(format, *value, component) && supplied(
                component,
                old(builder).snapshot_hint,
                with_last_checkpoint(),
                final(builder).snapshot_hint,
                res,
            ),
{
    let component = last_checkpoint(format, value);
    let ghost read = component;
    assert(components::last_checkpoint_read(format, *value, read));
    install_last_checkpoint(builder, component)
}

/// What supplying a checksum state does to a hint that was begun.
pub open spec fn crc_supplied(
    value: FfiSnapshotHintCrc,
    state: SnapshotHintVisitorState,
    after: FfiSnapshotHintState,
    res: Result<bool, Error>,
) -> bool {
    if state.metadata is None {
        after == FfiSnapshotHintState::Building(state) && error::fails(
            res,
            ErrorView::InvalidSnapshotHint("snapshot hint metadata must be supplied before CRC"@),
        )
    } else if state.protocol is None {
        after == FfiSnapshotHintState::Building(state) && error::fails(
            res,
            ErrorView::InvalidSnapshotHint("snapshot hint protocol must be supplied before CRC"@),
        )
    } else {
        exists|component: Result<Crc, Error>| #[trigger]
            components::crc_read(
                value,
                state.version,
                state.metadata->0.deep_view(),
                state.protocol->0.deep_view(),
                component,
            ) && match component {
                Err(e) => after == FfiSnapshotHintState::Building(state) && error::fails(
                    res,
                    ErrorView::InvalidSnapshotHint(e.deep_view().hint_message()),
                ),
                Ok(read) => res == Ok::<bool, Error>(true)
                    && (after matches FfiSnapshotHintState::Building(next) && next.crc matches Some(
                    shared,
                ) && *shared == read && next == (SnapshotHintVisitorState {
                    crc: Some(shared),
                    ..state
                })),
            }
    }
}

fn crc_component(value: &FfiSnapshotHintCrc, state: &SnapshotHintVisitorState) -> (res: Result<
    Crc,
    Error,
>)
    ensures
        if state.metadata is None {
            error::fails(
                res,
                ErrorView::InvalidSnapshotHint(
                    "snapshot hint metadata must be supplied before CRC"@,
                ),
            )
        } else if state.protocol is None {
            error::fails(
                res,
                ErrorView::InvalidSnapshotHint(
                    "snapshot hint protocol must be supplied before CRC"@,
                ),
            )
        } else {
            exists|component: Result<Crc, Error>| #[trigger]
                components::crc_read(
                    *value,
                    state.version,
                    state.metadata->0.deep_view(),
                    state.protocol->0.deep_view(),
                    component,
                ) && match component {
                    Err(e) => error::fails(
                        res,
                        ErrorView::InvalidSnapshotHint(e.deep_view().hint_message()),
                    ),
                    Ok(read) => res == Ok::<Crc, Error>(read),
                }
        },
{
    let table_metadata = match &state.metadata {
        Some(table_metadata) => table_metadata.dup(),
        None => {
            return Err(
                invalid(String::from_str("snapshot hint metadata must be supplied before CRC")),
            );
        },
    };
    let table_protocol = match &state.protocol {
        Some(table_protocol) => table_protocol.dup(),
        None => {
            return Err(
                invalid(String::from_str("snapshot hint protocol must be supplied before CRC")),
            );
        },
    };
    let component = crc(value, state.version, table_metadata, table_protocol);
    let ghost read = component;
    assert(components::crc_read(
        *value,
        state.version,
        state.metadata->0.deep_view(),
        state.protocol->0.deep_view(),
        read,
    ));
    match component {
        Ok(read) => Ok(read),
        Err(e) => Err(invalid_from_error(e)),
    }
}

/// Supplies the checksum state. Metadata and protocol have to be supplied before it.
pub fn snapshot_builder_snapshot_hint_set_crc(
    builder: &mut FfiSnapshotBuilder,
    value: &FfiSnapshotHintCrc,
) -> (res: Result<bool, Error>)
    ensures
        match old(builder).snapshot_hint {
            FfiSnapshotHintState::Building(state) => crc_supplied(
                *value,
                state,
                final(builder).snapshot_hint,
                res,
            ),
            _ => error::fails(res, not_started()) && final(builder).snapshot_hint == old(
                builder,
            ).snapshot_hint,
        },
{
    match take_state(builder) {
        FfiSnapshotHintState::Building(state) => match crc_component(value, &state) {
            Ok(read) => {
                let next = SnapshotHintVisitorState { crc: Some(Arc::new(read)), ..state };
                builder.snapshot_hint = FfiSnapshotHintState::Building(next);
                Ok(true)
            },
            Err(e) => {
                builder.snapshot_hint = FfiSnapshotHintState::Building(state);
                Err(e)
            },
        },
        other => {
            builder.snapshot_hint = other;
            Err(not_started_error())
        },
    }
}

/// The error for the first required component that is absent.
pub open spec fn missing(state: SnapshotHintVisitorState) -> Option<ErrorView> {
    if state.log_paths is None {
        Some(ErrorView::InvalidSnapshotHint("snapshot hint log paths were not supplied"@))
    } else if state.protocol is None {
        Some(ErrorView::InvalidSnapshotHint("snapshot hint protocol was not supplied"@))
    } else if state.metadata is None {
        Some(ErrorView::InvalidSnapshotHint("snapshot hint metadata was not supplied"@))
    } else {
        None
    }
}

/// The hint that the components make up with these log files.
pub open spec fn completed(
    state: SnapshotHintVisitorState,
    log_segment_files: LogSegmentFiles,
) -> SnapshotHint {
    SnapshotHint {
        version: state.version,
        log_segment_files,
        protocol: state.protocol->0,
        metadata: state.metadata->0,
        last_checkpoint_hint: state.last_checkpoint_hint,
        crc: state.crc,
        version_status: state.version_status,
    }
}

/// What finishing a hint gives once the table format has sorted the log paths.
pub open spec fn finished(
    state: SnapshotHintVisitorState,
    files: Result<LogSegmentFiles, Error>,
    res: Result<SnapshotHint, Error>,
) -> bool {
    match files {
        Ok(files) => res == Ok::<SnapshotHint, Error>(completed(state, files)),
        Err(e) => res == Err::<SnapshotHint, Error>(e),
    }
}

/// Whether `res` is the hint that the components make up, where none is missing.
pub open spec fn hint_completed<F: TableFormat>(
    format: &F,
    state: SnapshotHintVisitorState,
    res: Result<SnapshotHint, Error>,
) -> bool {
    match missing(state) {
        Some(e) => error::fails(res, e),
        None => exists|files: Result<LogSegmentFiles, Error>| #[trigger]
            call_ensures(
                F::sort_log_paths,
                (format, state.version, state.log_paths->0),
                files,
            ) && finished(state, files, res),
    }
}

fn complete_hint<F: TableFormat>(format: &F, state: SnapshotHintVisitorState) -> (res: Result<
    SnapshotHint,
    Error,
>)
    ensures
        hint_completed(format, state, res),
{
    let ghost given = state;
    let SnapshotHintVisitorState {
        version,
        version_status,
        log_paths,
        protocol,
        metadata,
        last_checkpoint_hint,
        crc,
    } = state;
    let log_paths = match log_paths {
        Some(log_paths) => log_paths,
        None => {
            return Err(invalid(String::from_str("snapshot hint log paths were not supplied")));
        },
    };
    let protocol = match protocol {
        Some(protocol) => protocol,
        None => {
            return Err(invalid(String::from_str("snapshot hint protocol was not supplied")));
        },
    };
    let metadata = match metadata {
        Some(metadata) => metadata,
        None => {
            return Err(invalid(String::from_str("snapshot hint metadata was not supplied")));
        },
    };
    let files = format.sort_log_paths(version, log_paths);
    let ghost answered = files;
    assert(call_ensures(
        F::sort_log_paths,
        (format, given.version, given.log_paths->0),
        answered,
    ));
    match files {
        Ok(log_segment_files) => Ok(
            SnapshotHint {
                version,
                log_segment_files,
                protocol,
                metadata,
                last_checkpoint_hint,
                crc,
                version_status,
            },
        ),
        Err(e) => Err(e),
    }
}

/// What finishing a hint does to a builder.
pub open spec fn finishes<F: TableFormat>(
    format: &F,
    before: FfiSnapshotHintState,
    after: FfiSnapshotHintState,
    res: Result<bool, Error>,
) -> bool {
    match before {
        FfiSnapshotHintState::Building(state) => exists|hint: Result<SnapshotHint, Error>|
            #[trigger] hint_completed(format, state, hint) && match hint {
                Ok(hint) => res == Ok::<bool, Error>(true) && after == FfiSnapshotHintState::Ready(
                    hint,
                ),
                Err(e) => res == Err::<bool, Error>(e) && after == FfiSnapshotHintState::Absent,
            },
        _ => error::fails(res, not_started()) && after == FfiSnapshotHintState::Absent,
    }
}

/// Finishes the hint. Log paths, protocol and metadata are required. The hint that was begun is
/// used up even where it is refused, so it has to be begun again before another try.
pub fn snapshot_builder_snapshot_hint_finish<F: TableFormat>(
    builder: &mut FfiSnapshotBuilder,
    format: &F,
) -> (res: Result<bool, Error>)
    ensures
        finishes(format, old(builder).snapshot_hint, final(builder).snapshot_hint, res),
{
    match take_state(builder) {
        FfiSnapshotHintState::Building(state) => {
            let ghost given = state;
            let hint = complete_hint(format, state);
            let ghost made = hint;
            assert(hint_completed(format, given, made));
            match hint {
                Ok(hint) => {
                    builder.snapshot_hint = FfiSnapshotHintState::Ready(hint);
                    Ok(true)
                },
                Err(e) => Err(e),
            }
        },
        _ => Err(not_started_error()),
    }
}

/// The error for a build while components are still being supplied.
pub open spec fn unfinished() -> ErrorView {
    ErrorView::InvalidSnapshotHint("snapshot hint visitor is unfinished"@)
}

/// The hint to build from, where there is one.
pub fn into_snapshot_hint(builder: FfiSnapshotBuilder) -> (res: Result<Option<SnapshotHint>, Error>)
    ensures
        match builder.snapshot_hint {
            FfiSnapshotHintState::Absent => res == Ok::<Option<SnapshotHint>, Error>(None),
            FfiSnapshotHintState::Ready(hint) => res == Ok::<Option<SnapshotHint>, Error>(
                Some(hint),
            ),
            FfiSnapshotHintState::Building(_) => error::fails(res, unfinished()),
        },
{
    match builder.snapshot_hint {
        FfiSnapshotHintState::Absent => Ok(None),
        FfiSnapshotHintState::Ready(hint) => Ok(Some(hint)),
        FfiSnapshotHintState::Building(_) => Err(
            invalid(String::from_str("snapshot hint visitor is unfinished")),
        ),
    }
}

/// Finishing uses the hint up: whatever came of it, finishing once more is refused.
pub proof fn law_finish_uses_hint_up<F: TableFormat>(
    format: &F,
    before: FfiSnapshotHintState,
    between: FfiSnapshotHintState,
    after: FfiSnapshotHintState,
    first_result: Result<bool, Error>,
    second_result: Result<bool, Error>,
)
    requires
        finishes(format, before, between, first_result),
        finishes(format, between, after, second_result),
    ensures
        error::fails(second_result, not_started()),
        after is Absent,
{
}

/// A component that is refused leaves the hint as it was.
pub proof fn law_refused_component_changes_nothing<T>(
    component: Result<T, Error>,
    before: FfiSnapshotHintState,
    next: spec_fn(SnapshotHintVisitorState, T) -> SnapshotHintVisitorState,
    after: FfiSnapshotHintState,
    res: Result<bool, Error>,
)
    requires
        supplied(component, before, next, after, res),
        res is Err,
    ensures
        after == before,
{
}

/// Log paths that are refused, whether they are invalid or no hint was begun, are an invalid hint
/// and leave it as it was.
pub proof fn law_refused_paths_are_an_invalid_hint(
    log_paths: Result<Vec<LogPath>, Error>,
    before: FfiSnapshotHintState,
    after: FfiSnapshotHintState,
    res: Result<bool, Error>,
)
    requires
        paths_supplied(log_paths, before, after, res),
    ensures
        res is Err <==> log_paths is Err || !(before is Building),
        res is Err ==> res->Err_0.deep_view() is InvalidSnapshotHint && after == before,
{
}

/// Log paths, protocol, metadata and checkpoint contents may be supplied in any order.
pub proof fn law_components_commute(
    state: SnapshotHintVisitorState,
    paths: Vec<LogPath>,
    protocol: Protocol,
    metadata: Metadata,
    checkpoint: LastCheckpointHint,
)
    ensures
        with_metadata()(with_protocol()(state, protocol), metadata) == with_protocol()(
            with_metadata()(state, metadata),
            protocol,
        ),
        with_log_paths()(with_protocol()(state, protocol), paths) == with_protocol()(
            with_log_paths()(state, paths),
            protocol,
        ),
        with_log_paths()(with_metadata()(state, metadata), paths) == with_metadata()(
            with_log_paths()(state, paths),
            metadata,
        ),
        with_last_checkpoint()(with_log_paths()(state, paths), checkpoint) == with_log_paths()(
            with_last_checkpoint()(state, checkpoint),
            paths,
        ),
        with_last_checkpoint()(with_protocol()(state, protocol), checkpoint) == with_protocol()(
            with_last_checkpoint()(state, checkpoint),
            protocol,
        ),
        with_last_checkpoint()(with_metadata()(state, metadata), checkpoint) == with_metadata()(
            with_last_checkpoint()(state, checkpoint),
            metadata,
        ),
{
}

/// A checksum state that was accepted is one of the table that the hint describes, so long as the
/// metadata and the protocol are not supplied again.
pub proof fn law_crc_is_of_the_hint(
    value: FfiSnapshotHintCrc,
    state: SnapshotHintVisitorState,
    after: FfiSnapshotHintState,
    res: Result<bool, Error>,
)
    requires
        crc_supplied(value, state, after, res),
        res is Ok,
    ensures
        after is Building,
        after->Building_0.crc is Some,
        ({
            let read = after->Building_0.crc->0.deep_view();
            &&& read.valid()
            &&& read.version == after->Building_0.version
            &&& Some(read.metadata) == after->Building_0.metadata.deep_view()
            &&& Some(read.protocol) == after->Building_0.protocol.deep_view()
        }),
{
}

} // verus!
