//! The builder of snapshots.

use std::sync::Arc;

use vstd::prelude::*;
use vstd::string::*;

use crate::data::Data;
use crate::error;
use crate::error::Error;
use crate::error::ErrorView;
use crate::log_files;
use crate::log_files::{into_parsed_paths, LogPath, LogSegment, ParsedLogPath};
use crate::snapshot::catalog;
use crate::snapshot::catalog::{
    validate_catalog_managed_build_inputs, validate_catalog_managed_build_result,
};
use crate::snapshot::engine::Engine;
use crate::snapshot::hint;
use crate::snapshot::hint::{build_from_snapshot_hint, HintOptions};
use crate::snapshot::replay::IncrementalReplay;
use crate::snapshot::table_url;
use crate::snapshot::table_url::log_root;
use crate::snapshot::types::{
    MetricId, Snapshot, SnapshotHint, SnapshotLoadMetricContext, SnapshotLoadType, SnapshotRef,
};
use crate::text;
use crate::text::{around, u64_text};

verus! {

/// Builds a [`Snapshot`], either of the table at a location or from an existing snapshot. `T` is
/// the type of cancellation tokens.
pub struct SnapshotBuilder<T> {
    table_root: Option<String>,
    existing_snapshot: Option<SnapshotRef>,
    version: Option<u64>,
    log_tail: Vec<LogPath>,
    max_catalog_version: Option<u64>,
    incremental_replay: IncrementalReplay,
    snapshot_hint: Option<SnapshotHint>,
    operation_id: MetricId,
    correlation_id: Option<String>,
    cancellation_token: Option<T>,
}

/// The options of a [`SnapshotBuilder`].
pub struct SnapshotBuilderView<T> {
    /// The location of the table.
    pub table_root: Option<String>,
    /// The snapshot to start from.
    pub existing_snapshot: Option<SnapshotRef>,
    /// The requested version; none means the latest, or that of the hint.
    pub version: Option<u64>,
    /// The last commits of the log, as a catalog knows them.
    pub log_tail: Vec<LogPath>,
    /// The last version that the catalog ratified.
    pub max_catalog_version: Option<u64>,
    /// How far a stale checksum state may be replayed.
    pub incremental_replay: IncrementalReplay,
    /// Everything that the snapshot is made of, where a connector supplies it.
    pub snapshot_hint: Option<SnapshotHint>,
    /// The identifier of the operation on metric events.
    pub operation_id: MetricId,
    /// The identifier of the caller on metric events.
    pub correlation_id: Option<String>,
    /// The cancellation token.
    pub cancellation_token: Option<T>,
}

impl<T> View for SnapshotBuilder<T> {
    type V = SnapshotBuilderView<T>;

    closed spec fn view(&self) -> SnapshotBuilderView<T> {
        SnapshotBuilderView {
            table_root: self.table_root,
            existing_snapshot: self.existing_snapshot,
            version: self.version,
            log_tail: self.log_tail,
            max_catalog_version: self.max_catalog_version,
            incremental_replay: self.incremental_replay,
            snapshot_hint: self.snapshot_hint,
            operation_id: self.operation_id,
            correlation_id: self.correlation_id,
            cancellation_token: self.cancellation_token,
        }
    }
}

impl<T> SnapshotBuilderView<T> {
    /// Whether the builder starts either from a location or from a snapshot, not from both.
    pub open spec fn one_source(self) -> bool {
        self.table_root is Some <==> self.existing_snapshot is None
    }

    /// How the snapshot is loaded.
    pub open spec fn load_type(self) -> SnapshotLoadType {
        if self.snapshot_hint is Some {
            SnapshotLoadType::SnapshotHint
        } else if self.table_root is Some {
            SnapshotLoadType::Full
        } else {
            SnapshotLoadType::Incremental
        }
    }

    /// What the metric events of the build carry.
    pub open spec fn context(self) -> SnapshotLoadMetricContext {
        SnapshotLoadMetricContext {
            operation_id: self.operation_id,
            is_catalog_managed: self.max_catalog_version is Some,
            correlation_id: self.correlation_id,
            load_type: self.load_type(),
        }
    }

    /// The options that a hint may conflict with.
    pub open spec fn hint_options(self) -> HintOptions {
        HintOptions {
            from_snapshot: self.existing_snapshot is Some,
            version: self.version,
            log_tail_len: self.log_tail@.len() as usize,
            max_catalog_version: self.max_catalog_version,
            incremental_replay: self.incremental_replay,
        }
    }

    /// The location of the table, as logs show it.
    pub open spec fn table_path(self) -> Seq<char> {
        match self.table_root {
            Some(table_root) => table_root@,
            None => match self.existing_snapshot {
                Some(snapshot) => snapshot.table_configuration.table_root@,
                None => "unknown"@,
            },
        }
    }

    /// The target of the build, as logs show it.
    pub open spec fn target_version(self) -> Seq<char> {
        match (self.max_catalog_version, self.version) {
            (Some(mcv), Some(v)) => text::int_text(v as int) + " (max_catalog_version="@
                + text::int_text(mcv as int) + ")"@,
            (Some(mcv), None) => text::int_text(mcv as int) + " (max_catalog_version)"@,
            (None, Some(v)) => text::int_text(v as int),
            (None, None) => "LATEST"@,
        }
    }
}

/// The options of a builder as they are shown to a user: a cancellation token has no text of its
/// own, so only whether there is one is shown.
#[derive(Debug)]
pub struct ShownOptions<'a> {
    /// The location of the table.
    pub table_root: &'a Option<String>,
    /// The snapshot to start from.
    pub existing_snapshot: &'a Option<SnapshotRef>,
    /// The requested version.
    pub version: Option<u64>,
    /// The last commits of the log.
    pub log_tail: &'a Vec<LogPath>,
    /// The last version that the catalog ratified.
    pub max_catalog_version: Option<u64>,
    /// How far a stale checksum state may be replayed.
    pub incremental_replay: IncrementalReplay,
    /// Everything that the snapshot is made of, where a connector supplies it.
    pub snapshot_hint: &'a Option<SnapshotHint>,
    /// The identifier of the operation on metric events.
    pub operation_id: MetricId,
    /// The identifier of the caller on metric events.
    pub correlation_id: &'a Option<String>,
    /// Whether the build can be cancelled.
    pub cancellable: bool,
}

/// The options of a new builder that starts from `table_root` or `existing_snapshot`.
pub open spec fn initial_options<T>(
    table_root: Option<String>,
    existing_snapshot: Option<SnapshotRef>,
    operation_id: MetricId,
    options: SnapshotBuilderView<T>,
) -> bool {
    &&& options.table_root == table_root
    &&& options.existing_snapshot == existing_snapshot
    &&& options.version is None
    &&& options.log_tail@.len() == 0
    &&& options.max_catalog_version is None
    &&& options.incremental_replay == IncrementalReplay::Disabled
    &&& options.snapshot_hint is None
    &&& options.operation_id == operation_id
    &&& options.correlation_id is None
    &&& options.cancellation_token is None
}

/// What a build gives for a snapshot that was loaded, or for the error of the load.
pub open spec fn checked_result(
    outcome: Result<SnapshotRef, Error>,
    max_catalog_version: Option<u64>,
    res: Result<SnapshotRef, Error>,
) -> bool {
    match outcome {
        Err(e) => res == Err::<SnapshotRef, Error>(e),
        Ok(snapshot) => if snapshot.table_configuration.catalog_managed
            == max_catalog_version is Some {
            res == Ok::<SnapshotRef, Error>(snapshot)
        } else {
            error::fails(res, catalog::catalog_mismatch(max_catalog_version))
        },
    }
}

/// Whether `outcome` is what the storage of the engine gives for a log segment.
pub open spec fn segment_loaded<E: Engine>(
    engine: &E,
    options: SnapshotBuilderView<E::Token>,
    table_root: String,
    listed: Result<LogSegment, Error>,
    outcome: Result<SnapshotRef, Error>,
) -> bool {
    match listed {
        Err(e) => outcome == Err::<SnapshotRef, Error>(e),
        Ok(segment) => exists|loaded: Result<Snapshot, Error>| #[trigger]
            call_ensures(
                E::load_snapshot,
                (
                    engine,
                    table_root,
                    segment,
                    &options.context(),
                    options.incremental_replay,
                    catalog::loads_latest(options.version, options.max_catalog_version),
                ),
                loaded,
            ) && match loaded {
                Err(e) => outcome == Err::<SnapshotRef, Error>(e),
                Ok(snapshot) => outcome matches Ok(shared) && *shared == snapshot,
            },
    }
}

/// Whether `outcome` is what the storage of the engine gives for the table at a URL.
pub open spec fn located_load<E: Engine>(
    engine: &E,
    options: SnapshotBuilderView<E::Token>,
    located: Result<String, Error>,
    outcome: Result<SnapshotRef, Error>,
) -> bool {
    match located {
        Err(e) => outcome == Err::<SnapshotRef, Error>(e),
        Ok(table_root) => match table_url::joined_url(table_root@, "_delta_log/"@) {
            Err(message) => error::fails(outcome, ErrorView::InvalidUrl(message)),
            Ok(log_root) => exists|
                root: String,
                tail: Vec<ParsedLogPath>,
                listed: Result<LogSegment, Error>,
            |
                root@ == log_root && tail@ == log_files::parsed_paths(options.log_tail@)
                    && #[trigger] call_ensures(
                    E::list_log_segment,
                    (
                        engine,
                        &root,
                        tail,
                        catalog::effective_version(options.version, options.max_catalog_version),
                        &options.context(),
                        &options.cancellation_token,
                    ),
                    listed,
                ) && segment_loaded(engine, options, table_root, listed, outcome),
        },
    }
}

/// Whether `outcome` is what the storage of the engine gives for an existing snapshot.
pub open spec fn updated_load<E: Engine>(
    engine: &E,
    options: SnapshotBuilderView<E::Token>,
    existing: SnapshotRef,
    outcome: Result<SnapshotRef, Error>,
) -> bool {
    exists|tail: Vec<ParsedLogPath>|
        tail@ == log_files::parsed_paths(options.log_tail@) && #[trigger] call_ensures(
            E::update_snapshot,
            (
                engine,
                existing,
                tail,
                catalog::effective_version(options.version, options.max_catalog_version),
                &options.context(),
                options.incremental_replay,
                catalog::loads_latest(options.version, options.max_catalog_version),
                &options.cancellation_token,
            ),
            outcome,
        )
}

/// Whether `outcome` is the snapshot that the builder loads, before the check for catalog-managed
/// tables.
pub open spec fn loads<E: Engine>(
    engine: &E,
    options: SnapshotBuilderView<E::Token>,
    outcome: Result<SnapshotRef, Error>,
) -> bool {
    let tail = log_files::parsed_paths(options.log_tail@);
    if options.snapshot_hint is Some {
        hint::hint_build(
            engine,
            options.table_root,
            options.hint_options(),
            options.snapshot_hint->0,
            outcome,
        )
    } else if !catalog::inputs_valid(options.version, options.max_catalog_version, tail) {
        outcome matches Err(e) && catalog::reports_inputs(
            options.version,
            options.max_catalog_version,
            tail,
            e.deep_view(),
        )
    } else {
        match (options.table_root, options.existing_snapshot) {
            (Some(root), _) => exists|located: Result<String, Error>| #[trigger]
                call_ensures(E::parse_table_root, (engine, &root), located) && located_load(
                    engine,
                    options,
                    located,
                    outcome,
                ),
            (None, Some(existing)) => updated_load(engine, options, existing, outcome),
            (None, None) => error::fails(
                outcome,
                ErrorView::InternalError(
                    "SnapshotBuilder should have either table_root or existing_snapshot"@,
                ),
            ),
        }
    }
}

/// Whether `res` is what a build with these options gives.
pub open spec fn builds<E: Engine>(
    engine: &E,
    options: SnapshotBuilderView<E::Token>,
    res: Result<SnapshotRef, Error>,
) -> bool {
    exists|outcome: Result<SnapshotRef, Error>| #[trigger]
        loads(engine, options, outcome) && checked_result(
            outcome,
            options.max_catalog_version,
            res,
        )
}

/// A build succeeds only with a snapshot that a catalog manages exactly where a maximum catalog
/// version was given.
pub proof fn law_built_snapshot_respects_catalog<E: Engine>(
    engine: &E,
    options: SnapshotBuilderView<E::Token>,
    snapshot: SnapshotRef,
)
    requires
        builds(engine, options, Ok::<SnapshotRef, Error>(snapshot)),
    ensures
        snapshot.table_configuration.catalog_managed == options.max_catalog_version is Some,
{
}

/// Inputs that conflict are rejected whatever the engine answers.
pub proof fn law_conflicting_inputs_are_rejected<E: Engine>(
    engine: &E,
    options: SnapshotBuilderView<E::Token>,
    res: Result<SnapshotRef, Error>,
)
    requires
        builds(engine, options, res),
        match options.snapshot_hint {
            Some(hint) => !options.hint_options().allow(hint.version),
            None => !catalog::inputs_valid(
                options.version,
                options.max_catalog_version,
                log_files::parsed_paths(options.log_tail@),
            ),
        },
    ensures
        res is Err,
{
}

/// The cancellation token has no part in a build from a hint.
pub proof fn law_hint_build_ignores_token<E: Engine>(
    engine: &E,
    options: SnapshotBuilderView<E::Token>,
    token: Option<E::Token>,
    res: Result<SnapshotRef, Error>,
)
    requires
        options.snapshot_hint is Some,
        builds(engine, options, res),
    ensures
        builds(engine, (SnapshotBuilderView { cancellation_token: token, ..options }), res),
{
    let other = SnapshotBuilderView { cancellation_token: token, ..options };
    let outcome = choose|outcome: Result<SnapshotRef, Error>| #[trigger]
        loads(engine, options, outcome) && checked_result(
            outcome,
            options.max_catalog_version,
            res,
        );
    assert(loads(engine, other, outcome));
}

impl<T> SnapshotBuilder<T> {
    #[verifier::type_invariant]
    spec fn has_one_source(&self) -> bool {
        self@.one_source()
    }

    /// A builder for the table at `table_root`.
    pub fn new_for(table_root: &str, operation_id: MetricId) -> (res: Self)
        ensures
            exists|root: String|
                root@ == table_root@ && #[trigger] initial_options(
                    Some(root),
                    None,
                    operation_id,
                    res@,
                ),
            res@.one_source(),
    {
        let root = String::from_str(table_root);
        let ghost given = root;
        let res = SnapshotBuilder {
            table_root: Some(root),
            existing_snapshot: None,
            version: None,
            log_tail: Vec::new(),
            max_catalog_version: None,
            incremental_replay: IncrementalReplay::default(),
            snapshot_hint: None,
            operation_id,
            correlation_id: None,
            cancellation_token: None,
        };
        assert(initial_options(Some(given), None, operation_id, res@));
        res
    }

    /// A builder that starts from an existing snapshot.
    pub fn new_from(existing_snapshot: SnapshotRef, operation_id: MetricId) -> (res: Self)
        ensures
            initial_options(None, Some(existing_snapshot), operation_id, res@),
            res@.one_source(),
    {
        SnapshotBuilder {
            table_root: None,
            existing_snapshot: Some(existing_snapshot),
            version: None,
            log_tail: Vec::new(),
            max_catalog_version: None,
            incremental_replay: IncrementalReplay::default(),
            snapshot_hint: None,
            operation_id,
            correlation_id: None,
            cancellation_token: None,
        }
    }

    /// Sets the version to load. Without it the latest version is loaded, or that of the hint.
    pub fn at_version(self, version: u64) -> (res: Self)
        ensures
            res@ == (SnapshotBuilderView { version: Some(version), ..self@ }),
    {
        proof {
            use_type_invariant(&self);
        }
        SnapshotBuilder { version: Some(version), ..self }
    }

    /// Sets the last commits of the log, as a catalog knows them: consecutive versions up to the
    /// one to load.
    pub fn with_log_tail(self, log_tail: Vec<LogPath>) -> (res: Self)
        ensures
            res@ == (SnapshotBuilderView { log_tail, ..self@ }),
    {
        proof {
            use_type_invariant(&self);
        }
        SnapshotBuilder { log_tail, ..self }
    }

    /// Sets the last version that the catalog ratified. No later version is loaded, whatever the
    /// storage holds, and it is the version to load where no other is requested.
    pub fn with_max_catalog_version(self, max_catalog_version: u64) -> (res: Self)
        ensures
            res@ == (SnapshotBuilderView {
                max_catalog_version: Some(max_catalog_version),
                ..self@
            }),
    {
        proof {
            use_type_invariant(&self);
        }
        SnapshotBuilder { max_catalog_version: Some(max_catalog_version), ..self }
    }

    /// Sets the token that cancels a listing or a read of the log. A build from a hint does
    /// neither.
    pub fn with_cancellation_token(self, token: Option<T>) -> (res: Self)
        ensures
            res@ == (SnapshotBuilderView { cancellation_token: token, ..self@ }),
    {
        proof {
            use_type_invariant(&self);
        }
        SnapshotBuilder { cancellation_token: token, ..self }
    }

    /// Sets how far a stale checksum state may be replayed.
    pub fn with_incremental_crc_replay(self, mode: IncrementalReplay) -> (res: Self)
        ensures
            res@ == (SnapshotBuilderView { incremental_replay: mode, ..self@ }),
    {
        proof {
            use_type_invariant(&self);
        }
        SnapshotBuilder { incremental_replay: mode, ..self }
    }

    /// Supplies everything that the snapshot is made of, so that storage is not read.
    pub fn with_snapshot_hint(self, hint: SnapshotHint) -> (res: Self)
        ensures
            res@ == (SnapshotBuilderView { snapshot_hint: Some(hint), ..self@ }),
    {
        proof {
            use_type_invariant(&self);
        }
        SnapshotBuilder { snapshot_hint: Some(hint), ..self }
    }

    /// Sets the identifier that ties the metric events of the build to the caller's own. An empty
    /// one is as none.
    pub fn with_correlation_id(self, correlation_id: String) -> (res: Self)
        ensures
            res@ == (SnapshotBuilderView {
                correlation_id: if correlation_id@.len() == 0 {
                    None
                } else {
                    Some(correlation_id)
                },
                ..self@
            }),
    {
        proof {
            use_type_invariant(&self);
            reveal_strlit("");
        }
        let empty = correlation_id.same(&String::from_str(""));
        assert(empty == (correlation_id@ =~= ""@));
        let correlation_id = if empty {
            None
        } else {
            Some(correlation_id)
        };
        SnapshotBuilder { correlation_id, ..self }
    }

    /// The options as they are shown to a user.
    pub fn shown(&self) -> (res: ShownOptions<'_>)
        ensures
            *res.table_root == self@.table_root,
            *res.existing_snapshot == self@.existing_snapshot,
            res.version == self@.version,
            *res.log_tail == self@.log_tail,
            res.max_catalog_version == self@.max_catalog_version,
            res.incremental_replay == self@.incremental_replay,
            *res.snapshot_hint == self@.snapshot_hint,
            res.operation_id == self@.operation_id,
            *res.correlation_id == self@.correlation_id,
            res.cancellable == self@.cancellation_token is Some,
    {
        ShownOptions {
            table_root: &self.table_root,
            existing_snapshot: &self.existing_snapshot,
            version: self.version,
            log_tail: &self.log_tail,
            max_catalog_version: self.max_catalog_version,
            incremental_replay: self.incremental_replay,
            snapshot_hint: &self.snapshot_hint,
            operation_id: self.operation_id,
            correlation_id: &self.correlation_id,
            cancellable: self.cancellation_token.is_some(),
        }
    }

    /// The location of the table, as logs show it.
    pub fn table_path(&self) -> (res: String)
        ensures
            res@ == self@.table_path(),
    {
        match &self.table_root {
            Some(table_root) => table_root.dup(),
            None => match &self.existing_snapshot {
                Some(snapshot) => snapshot.table_configuration.table_root.dup(),
                None => String::from_str("unknown"),
            },
        }
    }

    /// How the snapshot is loaded: from a hint, from a full listing, or from an existing snapshot
    /// and the commits above it.
    pub fn load_type(&self) -> (res: SnapshotLoadType)
        ensures
            res == self@.load_type(),
    {
        if self.snapshot_hint.is_some() {
            SnapshotLoadType::SnapshotHint
        } else if self.table_root.is_some() {
            SnapshotLoadType::Full
        } else {
            SnapshotLoadType::Incremental
        }
    }

    /// The target of the build, as logs show it.
    pub fn target_version_str(&self) -> (res: String)
        ensures
            res@ == self@.target_version(),
    {
        if let Some(mcv) = self.max_catalog_version {
            return match self.version {
                Some(v) => {
                    let head = u64_text(v);
                    let head = around(
                        head.as_str(),
                        " (max_catalog_version=",
                        u64_text(mcv).as_str(),
                    );
                    text::join(head.as_str(), ")")
                },
                None => text::join(u64_text(mcv).as_str(), " (max_catalog_version)"),
            };
        }
        match self.version {
            Some(v) => u64_text(v),
            None => String::from_str("LATEST"),
        }
    }

    /// Builds the snapshot.
    ///
    /// # Errors
    ///
    /// Where options conflict, where the engine reports an error, or where a maximum catalog
    /// version was given for a table that no catalog manages, or none for one that a catalog
    /// manages.
    pub fn build<E: Engine<Token = T>>(self, engine: &E) -> (res: Result<SnapshotRef, Error>)
        ensures
            builds(engine, self@, res),
    {
        let ghost options = self@;
        let load_type = self.load_type();
        let SnapshotBuilder {
            table_root,
            existing_snapshot,
            version,
            log_tail,
            max_catalog_version,
            incremental_replay,
            snapshot_hint,
            operation_id,
            correlation_id,
            cancellation_token,
        } = self;
        let outcome = if let Some(hint) = snapshot_hint {
            let hint_options = HintOptions {
                from_snapshot: existing_snapshot.is_some(),
                version,
                log_tail_len: log_tail.len(),
                max_catalog_version,
                incremental_replay,
            };
            build_from_snapshot_hint(engine, table_root, hint_options, hint)
        } else {
            let context = SnapshotLoadMetricContext {
                operation_id,
                is_catalog_managed: max_catalog_version.is_some(),
                correlation_id,
                load_type,
            };
            assert(context == options.context());
            let tail = into_parsed_paths(log_tail);
            match validate_catalog_managed_build_inputs(version, max_catalog_version, &tail) {
                Err(e) => Err(e),
                Ok(()) => {
                    let effective_version = if version.is_some() {
                        version
                    } else {
                        max_catalog_version
                    };
                    let built_as_latest = version.is_none() || version == max_catalog_version;
                    load(
                        engine,
                        Ghost(options),
                        table_root,
                        existing_snapshot,
                        tail,
                        effective_version,
                        context,
                        incremental_replay,
                        built_as_latest,
                        cancellation_token,
                    )
                },
            }
        };
        let ghost loaded = outcome;
        assert(loads(engine, options, loaded));
        finish_build(outcome, max_catalog_version)
    }
}

fn load<E: Engine>(
    engine: &E,
    options: Ghost<SnapshotBuilderView<E::Token>>,
    table_root: Option<String>,
    existing_snapshot: Option<SnapshotRef>,
    log_tail: Vec<ParsedLogPath>,
    effective_version: Option<u64>,
    context: SnapshotLoadMetricContext,
    incremental_replay: IncrementalReplay,
    built_as_latest: bool,
    cancellation_token: Option<E::Token>,
) -> (res: Result<SnapshotRef, Error>)
    requires
        options@.snapshot_hint is None,
        catalog::inputs_valid(
            options@.version,
            options@.max_catalog_version,
            log_files::parsed_paths(options@.log_tail@),
        ),
        table_root == options@.table_root,
        existing_snapshot == options@.existing_snapshot,
        log_tail@ == log_files::parsed_paths(options@.log_tail@),
        effective_version == catalog::effective_version(
            options@.version,
            options@.max_catalog_version,
        ),
        context == options@.context(),
        incremental_replay == options@.incremental_replay,
        built_as_latest == catalog::loads_latest(options@.version, options@.max_catalog_version),
        cancellation_token == options@.cancellation_token,
    ensures
        loads(engine, options@, res),
{
    if let Some(root) = table_root {
        let located = engine.parse_table_root(&root);
        let ghost answered = located;
        assert(call_ensures(E::parse_table_root, (engine, &root), answered));
        let res = match located {
            Err(e) => Err(e),
            Ok(table_url) => load_located(
                engine,
                options,
                table_url,
                log_tail,
                effective_version,
                context,
                incremental_replay,
                built_as_latest,
                cancellation_token,
            ),
        };
        assert(located_load(engine, options@, answered, res));
        res
    } else {
        let existing = match existing_snapshot {
            Some(existing) => existing,
            None => {
                return Err(
                    Error::InternalError(
                        String::from_str(
                            "SnapshotBuilder should have either table_root or existing_snapshot",
                        ),
                    ),
                );
            },
        };
        engine.update_snapshot(
            existing,
            log_tail,
            effective_version,
            &context,
            incremental_replay,
            built_as_latest,
            &cancellation_token,
        )
    }
}

fn load_located<E: Engine>(
    engine: &E,
    options: Ghost<SnapshotBuilderView<E::Token>>,
    table_root: String,
    log_tail: Vec<ParsedLogPath>,
    effective_version: Option<u64>,
    context: SnapshotLoadMetricContext,
    incremental_replay: IncrementalReplay,
    built_as_latest: bool,
    cancellation_token: Option<E::Token>,
) -> (res: Result<SnapshotRef, Error>)
    requires
        log_tail@ == log_files::parsed_paths(options@.log_tail@),
        effective_version == catalog::effective_version(
            options@.version,
            options@.max_catalog_version,
        ),
        context == options@.context(),
        incremental_replay == options@.incremental_replay,
        built_as_latest == catalog::loads_latest(options@.version, options@.max_catalog_version),
        cancellation_token == options@.cancellation_token,
    ensures
        located_load(engine, options@, Ok::<String, Error>(table_root), res),
{
    let log_directory = match log_root(&table_root) {
        Ok(log_directory) => log_directory,
        Err(e) => {
            return Err(e);
        },
    };
    let listed = engine.list_log_segment(
        &log_directory,
        log_tail,
        effective_version,
        &context,
        &cancellation_token,
    );
    let ghost answered = listed;
    let ghost root = table_root;
    assert(call_ensures(
        E::list_log_segment,
        (
            engine,
            &log_directory,
            log_tail,
            effective_version,
            &options@.context(),
            &options@.cancellation_token,
        ),
        answered,
    ));
    let res = match listed {
        Err(e) => Err(e),
        Ok(segment) => {
            let loaded = engine.load_snapshot(
                table_root,
                segment,
                &context,
                incremental_replay,
                built_as_latest,
            );
            assert(call_ensures(
                E::load_snapshot,
                (
                    engine,
                    root,
                    segment,
                    &options@.context(),
                    incremental_replay,
                    built_as_latest,
                ),
                loaded,
            ));
            match loaded {
                Err(e) => Err(e),
                Ok(snapshot) => Ok(Arc::new(snapshot)),
            }
        },
    };
    assert(segment_loaded(engine, options@, root, answered, res));
    res
}

/// What a build gives for a snapshot that was loaded, or for the error of the load.
pub fn finish_build(
    outcome: Result<SnapshotRef, Error>,
    max_catalog_version: Option<u64>,
) -> (res: Result<SnapshotRef, Error>)
    ensures
        checked_result(outcome, max_catalog_version, res),
{
    match outcome {
        Err(e) => Err(e),
        Ok(snapshot) => match validate_catalog_managed_build_result(
            &snapshot,
            max_catalog_version,
        ) {
            Ok(()) => Ok(snapshot),
            Err(e) => Err(e),
        },
    }
}

} // verus!
