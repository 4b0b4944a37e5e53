//! Reading the components of a snapshot hint that a C caller passes.

use vstd::prelude::*;

use crate::actions::{
    DomainMetadata, DomainMetadataView, Metadata, MetadataView, Protocol, ProtocolView,
    SetTransaction, SetTransactionView,
};
use crate::crc::checksum::Crc;
use crate::crc::file_size_histogram::{FileSizeHistogram, FileSizeHistogramView};
use crate::crc::raw;
use crate::crc::raw::CrcRawView;
use crate::error;
use crate::error::Error;
use crate::error::ErrorView;
use crate::ffi::convert;
use crate::ffi::convert::{
    invalid, optional_i64, optional_string, optional_string_map, optional_strings, optional_usize,
    raw_slice, required_ref, string, string_map, strings,
};
use crate::ffi::first;
use crate::ffi::values::{
    FfiI64Array, FfiSnapshotHintAction, FfiSnapshotHintCheckpointMetadata, FfiSnapshotHintCrc,
    FfiSnapshotHintDomainMetadata, FfiSnapshotHintFileSizeHistogram,
    FfiSnapshotHintLastCheckpoint, FfiSnapshotHintMetadata, FfiSnapshotHintProtocol,
    FfiSnapshotHintSetTransaction, FfiSnapshotHintSidecar, FfiSnapshotHintV2Checkpoint,
    SNAPSHOT_HINT_ACTION_CHECKPOINT_METADATA, SNAPSHOT_HINT_ACTION_DOMAIN_METADATA,
    SNAPSHOT_HINT_ACTION_METADATA, SNAPSHOT_HINT_ACTION_PROTOCOL,
    SNAPSHOT_HINT_ACTION_TRANSACTION,
};
use crate::last_checkpoint::{
    CheckpointMetadata, CheckpointMetadataView, HintAction, LastCheckpointHint,
    LastCheckpointHintView, LastCheckpointV2, LastCheckpointV2View, Sidecar, SidecarView,
};
use crate::snapshot::engine::TableFormat;
use crate::text;
use crate::text::{join, u64_text};

verus! {

/// The error for the fields of a protocol.
pub open spec fn protocol_error(value: FfiSnapshotHintProtocol) -> Option<ErrorView> {
    convert::either(
        convert::optional_strings_error(value.reader_features),
        convert::optional_strings_error(value.writer_features),
    )
}

/// The fields of a protocol.
pub open spec fn protocol_value(value: FfiSnapshotHintProtocol) -> ProtocolView {
    ProtocolView {
        min_reader_version: value.min_reader_version,
        min_writer_version: value.min_writer_version,
        reader_features: convert::optional_strings_value(value.reader_features),
        writer_features: convert::optional_strings_value(value.writer_features),
    }
}

/// Whether `res` is the protocol, where its fields can be read and a table can have it.
pub open spec fn protocol_read<F: TableFormat>(
    format: &F,
    value: FfiSnapshotHintProtocol,
    res: Result<Protocol, Error>,
) -> bool {
    match protocol_error(value) {
        Some(e) => error::fails(res, e),
        None => exists|read: Protocol, answer: Result<(), Error>|
            read.deep_view() == protocol_value(value) && #[trigger] call_ensures(
                F::check_protocol,
                (format, &read),
                answer,
            ) && error::accepted(read, answer, res),
    }
}

/// The fields of a protocol.
pub fn protocol_fields(value: &FfiSnapshotHintProtocol) -> (res: Result<Protocol, Error>)
    ensures
        convert::reads(protocol_error(*value), protocol_value(*value), res),
{
    let reader_features = match optional_strings(&value.reader_features) {
        Ok(features) => features,
        Err(e) => {
            return Err(e);
        },
    };
    let writer_features = match optional_strings(&value.writer_features) {
        Ok(features) => features,
        Err(e) => {
            return Err(e);
        },
    };
    Ok(
        Protocol {
            min_reader_version: value.min_reader_version,
            min_writer_version: value.min_writer_version,
            reader_features,
            writer_features,
        },
    )
}

/// The protocol, where its fields can be read and a table can have it.
pub fn protocol<F: TableFormat>(format: &F, value: &FfiSnapshotHintProtocol) -> (res: Result<
    Protocol,
    Error,
>)
    ensures
        protocol_read(format, *value, res),
{
    let read = match protocol_fields(value) {
        Ok(read) => read,
        Err(e) => {
            return Err(e);
        },
    };
    let answer = format.check_protocol(&read);
    let ghost given = read;
    let ghost answered = answer;
    assert(call_ensures(F::check_protocol, (format, &given), answered));
    match answer {
        Ok(()) => Ok(read),
        Err(e) => Err(e),
    }
}

/// The error for the fields of metadata.
pub open spec fn metadata_error(value: FfiSnapshotHintMetadata) -> Option<ErrorView> {
    convert::either(
        convert::string_error(value.id),
        convert::either(
            convert::optional_string_error(value.name),
            convert::either(
                convert::optional_string_error(value.description),
                convert::either(
                    convert::string_error(value.format_provider),
                    convert::either(
                        convert::string_map_error(value.format_options),
                        convert::either(
                            convert::string_error(value.schema_string),
                            convert::either(
                                convert::strings_error(value.partition_columns),
                                convert::string_map_error(value.configuration),
                            ),
                        ),
                    ),
                ),
            ),
        ),
    )
}

/// The metadata.
pub open spec fn metadata_value(value: FfiSnapshotHintMetadata) -> MetadataView {
    MetadataView {
        id: convert::string_value(value.id),
        name: convert::optional_string_value(value.name),
        description: convert::optional_string_value(value.description),
        format_provider: convert::string_value(value.format_provider),
        format_options: convert::string_map_value(value.format_options),
        schema_string: convert::string_value(value.schema_string),
        partition_columns: convert::strings_value(value.partition_columns),
        created_time: convert::optional_i64_value(value.created_time),
        configuration: convert::string_map_value(value.configuration),
    }
}

/// The metadata.
pub fn metadata(value: &FfiSnapshotHintMetadata) -> (res: Result<Metadata, Error>)
    ensures
        convert::reads(metadata_error(*value), metadata_value(*value), res),
{
    let id = match string(&value.id) {
        Ok(id) => id,
        Err(e) => {
            return Err(e);
        },
    };
    let name = match optional_string(&value.name) {
        Ok(name) => name,
        Err(e) => {
            return Err(e);
        },
    };
    let description = match optional_string(&value.description) {
        Ok(description) => description,
        Err(e) => {
            return Err(e);
        },
    };
    let format_provider = match string(&value.format_provider) {
        Ok(format_provider) => format_provider,
        Err(e) => {
            return Err(e);
        },
    };
    let format_options = match string_map(&value.format_options) {
        Ok(format_options) => format_options,
        Err(e) => {
            return Err(e);
        },
    };
    let schema_string = match string(&value.schema_string) {
        Ok(schema_string) => schema_string,
        Err(e) => {
            return Err(e);
        },
    };
    let partition_columns = match strings(&value.partition_columns) {
        Ok(partition_columns) => partition_columns,
        Err(e) => {
            return Err(e);
        },
    };
    let configuration = match string_map(&value.configuration) {
        Ok(configuration) => configuration,
        Err(e) => {
            return Err(e);
        },
    };
    Ok(
        Metadata {
            id,
            name,
            description,
            format_provider,
            format_options,
            schema_string,
            partition_columns,
            created_time: optional_i64(&value.created_time),
            configuration,
        },
    )
}

/// The error for a transaction.
pub open spec fn set_transaction_error(value: FfiSnapshotHintSetTransaction) -> Option<ErrorView> {
    convert::string_error(value.app_id)
}

/// The transaction.
pub open spec fn set_transaction_value(
    value: FfiSnapshotHintSetTransaction,
) -> SetTransactionView {
    SetTransactionView {
        app_id: convert::string_value(value.app_id),
        version: value.version,
        last_updated: convert::optional_i64_value(value.last_updated),
    }
}

/// The transaction.
pub fn set_transaction(value: &FfiSnapshotHintSetTransaction) -> (res: Result<
    SetTransaction,
    Error,
>)
    ensures
        convert::reads(set_transaction_error(*value), set_transaction_value(*value), res),
{
    match string(&value.app_id) {
        Ok(app_id) => Ok(
            SetTransaction::new(app_id, value.version, optional_i64(&value.last_updated)),
        ),
        Err(e) => Err(e),
    }
}

/// The error for a domain.
pub open spec fn domain_metadata_error(value: FfiSnapshotHintDomainMetadata) -> Option<ErrorView> {
    convert::either(
        convert::string_error(value.domain),
        convert::string_error(value.configuration),
    )
}

/// The domain.
pub open spec fn domain_metadata_value(
    value: FfiSnapshotHintDomainMetadata,
) -> DomainMetadataView {
    DomainMetadataView {
        domain: convert::string_value(value.domain),
        configuration: convert::string_value(value.configuration),
        removed: value.removed,
    }
}

/// The domain.
pub fn domain_metadata(value: &FfiSnapshotHintDomainMetadata) -> (res: Result<
    DomainMetadata,
    Error,
>)
    ensures
        convert::reads(domain_metadata_error(*value), domain_metadata_value(*value), res),
{
    let domain = match string(&value.domain) {
        Ok(domain) => domain,
        Err(e) => {
            return Err(e);
        },
    };
    let configuration = match string(&value.configuration) {
        Ok(configuration) => configuration,
        Err(e) => {
            return Err(e);
        },
    };
    Ok(
        if value.removed {
            DomainMetadata::remove(domain, configuration)
        } else {
            DomainMetadata::new(domain, configuration)
        },
    )
}

/// The error for the metadata of a checkpoint.
pub open spec fn checkpoint_metadata_error(value: FfiSnapshotHintCheckpointMetadata) -> Option<
    ErrorView,
> {
    convert::optional_string_map_error(value.tags)
}

/// The metadata of a checkpoint.
pub open spec fn checkpoint_metadata_value(
    value: FfiSnapshotHintCheckpointMetadata,
) -> CheckpointMetadataView {
    CheckpointMetadataView {
        version: value.version,
        tags: convert::optional_string_map_value(value.tags),
    }
}

/// The metadata of a checkpoint.
pub fn checkpoint_metadata(value: &FfiSnapshotHintCheckpointMetadata) -> (res: Result<
    CheckpointMetadata,
    Error,
>)
    ensures
        convert::reads(checkpoint_metadata_error(*value), checkpoint_metadata_value(*value), res),
{
    match optional_string_map(&value.tags) {
        Ok(tags) => Ok(CheckpointMetadata { version: value.version, tags }),
        Err(e) => Err(e),
    }
}

/// The error for a sidecar.
pub open spec fn sidecar_error(value: FfiSnapshotHintSidecar) -> Option<ErrorView> {
    convert::either(
        convert::string_error(value.path),
        convert::optional_string_map_error(value.tags),
    )
}

/// The sidecar.
pub open spec fn sidecar_value(value: FfiSnapshotHintSidecar) -> SidecarView {
    SidecarView {
        path: convert::string_value(value.path),
        size_in_bytes: value.size_in_bytes,
        modification_time: value.modification_time,
        tags: convert::optional_string_map_value(value.tags),
    }
}

/// The sidecar.
pub fn sidecar(value: &FfiSnapshotHintSidecar) -> (res: Result<Sidecar, Error>)
    ensures
        convert::reads(sidecar_error(*value), sidecar_value(*value), res),
{
    let path = match string(&value.path) {
        Ok(path) => path,
        Err(e) => {
            return Err(e);
        },
    };
    match optional_string_map(&value.tags) {
        Ok(tags) => Ok(
            Sidecar {
                path,
                size_in_bytes: value.size_in_bytes,
                modification_time: value.modification_time,
                tags,
            },
        ),
        Err(e) => Err(e),
    }
}

/// The error for an integer that stands for no kind of action.
pub open spec fn unknown_kind(kind: u32) -> ErrorView {
    ErrorView::InvalidSnapshotHint(
        "unknown snapshot hint action kind: "@ + text::int_text(kind as int),
    )
}

/// Whether `res` is the action: of the kind that the integer stands for, with the payload of that
/// kind.
pub open spec fn action_read<F: TableFormat>(
    format: &F,
    value: FfiSnapshotHintAction,
    res: Result<HintAction, Error>,
) -> bool {
    if value.kind == SNAPSHOT_HINT_ACTION_METADATA {
        match value.value.metadata {
            None => error::fails(res, convert::null_value("metadata action"@)),
            Some(payload) => match res {
                Ok(HintAction::Metadata(read)) => metadata_error(payload) is None
                    && read.deep_view() == metadata_value(payload),
                Ok(_) => false,
                Err(e) => metadata_error(payload) == Some(e.deep_view()),
            },
        }
    } else if value.kind == SNAPSHOT_HINT_ACTION_PROTOCOL {
        match value.value.protocol {
            None => error::fails(res, convert::null_value("protocol action"@)),
            Some(payload) => match res {
                Ok(HintAction::Protocol(read)) => protocol_read(
                    format,
                    payload,
                    Ok::<Protocol, Error>(read),
                ),
                Ok(_) => false,
                Err(e) => protocol_read(format, payload, Err::<Protocol, Error>(e)),
            },
        }
    } else if value.kind == SNAPSHOT_HINT_ACTION_TRANSACTION {
        match value.value.transaction {
            None => error::fails(res, convert::null_value("transaction action"@)),
            Some(payload) => match res {
                Ok(HintAction::Txn(read)) => set_transaction_error(payload) is None
                    && read.deep_view() == set_transaction_value(payload),
                Ok(_) => false,
                Err(e) => set_transaction_error(payload) == Some(e.deep_view()),
            },
        }
    } else if value.kind == SNAPSHOT_HINT_ACTION_DOMAIN_METADATA {
        match value.value.domain_metadata {
            None => error::fails(res, convert::null_value("domain-metadata action"@)),
            Some(payload) => match res {
                Ok(HintAction::DomainMetadata(read)) => domain_metadata_error(payload) is None
                    && read.deep_view() == domain_metadata_value(payload),
                Ok(_) => false,
                Err(e) => domain_metadata_error(payload) == Some(e.deep_view()),
            },
        }
    } else if value.kind == SNAPSHOT_HINT_ACTION_CHECKPOINT_METADATA {
        match value.value.checkpoint_metadata {
            None => error::fails(res, convert::null_value("checkpoint-metadata action"@)),
            Some(payload) => match res {
                Ok(HintAction::CheckpointMetadata(read)) => checkpoint_metadata_error(
                    payload,
                ) is None && read.deep_view() == checkpoint_metadata_value(payload),
                Ok(_) => false,
                Err(e) => checkpoint_metadata_error(payload) == Some(e.deep_view()),
            },
        }
    } else {
        error::fails(res, unknown_kind(value.kind))
    }
}

/// The action: of the kind that the integer stands for, with the payload of that kind.
pub fn action<F: TableFormat>(format: &F, value: &FfiSnapshotHintAction) -> (res: Result<
    HintAction,
    Error,
>)
    ensures
        action_read(format, *value, res),
{
    if value.kind == SNAPSHOT_HINT_ACTION_METADATA {
        match required_ref(&value.value.metadata, "metadata action") {
            Ok(payload) => match metadata(payload) {
                Ok(read) => Ok(HintAction::Metadata(read)),
                Err(e) => Err(e),
            },
            Err(e) => Err(e),
        }
    } else if value.kind == SNAPSHOT_HINT_ACTION_PROTOCOL {
        match required_ref(&value.value.protocol, "protocol action") {
            Ok(payload) => match protocol(format, payload) {
                Ok(read) => Ok(HintAction::Protocol(read)),
                Err(e) => Err(e),
            },
            Err(e) => Err(e),
        }
    } else if value.kind == SNAPSHOT_HINT_ACTION_TRANSACTION {
        match required_ref(&value.value.transaction, "transaction action") {
            Ok(payload) => match set_transaction(payload) {
                Ok(read) => Ok(HintAction::Txn(read)),
                Err(e) => Err(e),
            },
            Err(e) => Err(e),
        }
    } else if value.kind == SNAPSHOT_HINT_ACTION_DOMAIN_METADATA {
        match required_ref(&value.value.domain_metadata, "domain-metadata action") {
            Ok(payload) => match domain_metadata(payload) {
                Ok(read) => Ok(HintAction::DomainMetadata(read)),
                Err(e) => Err(e),
            },
            Err(e) => Err(e),
        }
    } else if value.kind == SNAPSHOT_HINT_ACTION_CHECKPOINT_METADATA {
        match required_ref(&value.value.checkpoint_metadata, "checkpoint-metadata action") {
            Ok(payload) => match checkpoint_metadata(payload) {
                Ok(read) => Ok(HintAction::CheckpointMetadata(read)),
                Err(e) => Err(e),
            },
            Err(e) => Err(e),
        }
    } else {
        Err(
            invalid(
                join("unknown snapshot hint action kind: ", u64_text(value.kind as u64).as_str()),
            ),
        )
    }
}

/// Whether `res` is the list of the actions, or the error of the first that cannot be read.
pub open spec fn action_list_read<F: TableFormat>(
    format: &F,
    items: Seq<FfiSnapshotHintAction>,
    res: Result<Vec<HintAction>, Error>,
) -> bool {
    match res {
        Ok(list) => list@.len() == items.len() && forall|i: int|
            0 <= i < items.len() ==> action_read(
                format,
                items[i],
                Ok::<HintAction, Error>(#[trigger] list@[i]),
            ),
        Err(e) => exists|i: int, done: Seq<HintAction>|
            0 <= i < items.len() && done.len() == i && (forall|j: int|
                0 <= j < i ==> action_read(
                    format,
                    items[j],
                    Ok::<HintAction, Error>(#[trigger] done[j]),
                )) && #[trigger] action_fails(format, items, done, i, e),
    }
}

/// Whether the action at `i`, after those that are done, cannot be read.
pub open spec fn action_fails<F: TableFormat>(
    format: &F,
    items: Seq<FfiSnapshotHintAction>,
    done: Seq<HintAction>,
    i: int,
    e: Error,
) -> bool {
    done.len() == i && action_read(format, items[i], Err::<HintAction, Error>(e))
}

fn action_list<F: TableFormat>(format: &F, items: &[FfiSnapshotHintAction]) -> (res: Result<
    Vec<HintAction>,
    Error,
>)
    ensures
        action_list_read(format, items@, res),
{
    let mut list: Vec<HintAction> = Vec::new();
    let mut i: usize = 0;
    while i < items.len()
        invariant
            i <= items@.len(),
            list@.len() == i,
            forall|j: int|
                0 <= j < i ==> action_read(
                    format,
                    items@[j],
                    Ok::<HintAction, Error>(#[trigger] list@[j]),
                ),
        decreases items@.len() - i,
    {
        match action(format, &items[i]) {
            Ok(read) => {
                list.push(read);
            },
            Err(e) => {
                assert(action_fails(format, items@, list@, i as int, e));
                return Err(e);
            },
        }
        i = i + 1;
    }
    Ok(list)
}

/// The errors of the sidecars.
pub open spec fn sidecar_errors(items: Seq<FfiSnapshotHintSidecar>) -> Seq<Option<ErrorView>> {
    items.map_values(|item: FfiSnapshotHintSidecar| sidecar_error(item))
}

/// The error for the sidecars of a checkpoint.
pub open spec fn sidecars_error(value: FfiSnapshotHintV2Checkpoint) -> Option<ErrorView> {
    let files = value.sidecar_files;
    if value.has_sidecar_files {
        convert::either(
            convert::array_error(files.ptr, files.len, "sidecar array"@),
            first::first(sidecar_errors(convert::elements(files.ptr, files.len))),
        )
    } else {
        None
    }
}

/// The sidecars of a checkpoint, where they are present.
pub open spec fn sidecars_value(value: FfiSnapshotHintV2Checkpoint) -> Option<Seq<SidecarView>> {
    let files = value.sidecar_files;
    if value.has_sidecar_files {
        Some(
            convert::elements(files.ptr, files.len).map_values(
                |item: FfiSnapshotHintSidecar| sidecar_value(item),
            ),
        )
    } else {
        None
    }
}

fn sidecars(value: &FfiSnapshotHintV2Checkpoint) -> (res: Result<Option<Vec<Sidecar>>, Error>)
    ensures
        convert::reads(sidecars_error(*value), sidecars_value(*value), res),
{
    if !value.has_sidecar_files {
        return Ok(None);
    }
    let files = &value.sidecar_files;
    let items = match raw_slice(&files.ptr, files.len, "sidecar array") {
        Ok(items) => items,
        Err(e) => {
            return Err(e);
        },
    };
    let ghost errors = sidecar_errors(items@);
    let mut list: Vec<Sidecar> = Vec::new();
    let mut i: usize = 0;
    while i < items.len()
        invariant
            i <= items@.len(),
            value.has_sidecar_files,
            items@ == convert::elements(value.sidecar_files.ptr, value.sidecar_files.len),
            convert::array_error(
                value.sidecar_files.ptr,
                value.sidecar_files.len,
                "sidecar array"@,
            ) is None,
            errors == sidecar_errors(items@),
            list@.len() == i,
            forall|j: int| 0 <= j < i ==> (#[trigger] errors[j]) is None,
            forall|j: int|
                0 <= j < i ==> (#[trigger] list@[j]).deep_view() == sidecar_value(items@[j]),
        decreases items@.len() - i,
    {
        match sidecar(&items[i]) {
            Ok(read) => {
                list.push(read);
            },
            Err(e) => {
                proof {
                    first::lemma_first_at(errors, i as int);
                }
                return Err(e);
            },
        }
        i = i + 1;
    }
    proof {
        first::lemma_first(errors);
        assert(list.deep_view() =~= sidecars_value(*value)->0);
    }
    Ok(Some(list))
}

/// Whether `res` is the list of the non-file actions of a checkpoint, where they are present.
pub open spec fn non_file_actions_read<F: TableFormat>(
    format: &F,
    value: FfiSnapshotHintV2Checkpoint,
    res: Result<Option<Vec<HintAction>>, Error>,
) -> bool {
    let actions = value.non_file_actions;
    if !value.has_non_file_actions {
        res == Ok::<Option<Vec<HintAction>>, Error>(None)
    } else {
        match convert::array_error(actions.ptr, actions.len, "non-file action array"@) {
            Some(e) => error::fails(res, e),
            None => match res {
                Ok(Some(list)) => action_list_read(
                    format,
                    convert::elements(actions.ptr, actions.len),
                    Ok::<Vec<HintAction>, Error>(list),
                ),
                Ok(None) => false,
                Err(e) => action_list_read(
                    format,
                    convert::elements(actions.ptr, actions.len),
                    Err::<Vec<HintAction>, Error>(e),
                ),
            },
        }
    }
}

fn non_file_actions<F: TableFormat>(
    format: &F,
    value: &FfiSnapshotHintV2Checkpoint,
) -> (res: Result<Option<Vec<HintAction>>, Error>)
    ensures
        non_file_actions_read(format, *value, res),
{
    if !value.has_non_file_actions {
        return Ok(None);
    }
    let actions = &value.non_file_actions;
    match raw_slice(&actions.ptr, actions.len, "non-file action array") {
        Ok(items) => match action_list(format, items) {
            Ok(list) => Ok(Some(list)),
            Err(e) => Err(e),
        },
        Err(e) => Err(e),
    }
}

/// A checkpoint with sidecars, once its actions have been read.
pub open spec fn v2_checkpoint_value(
    value: FfiSnapshotHintV2Checkpoint,
    actions: Option<Vec<HintAction>>,
) -> LastCheckpointV2View {
    LastCheckpointV2View {
        path: convert::string_value(value.path),
        size_in_bytes: convert::optional_i64_value(value.size_in_bytes),
        modification_time: convert::optional_i64_value(value.modification_time),
        sidecar_files: sidecars_value(value),
        non_file_actions: actions.deep_view(),
    }
}

/// Whether `res` is the checkpoint with sidecars: the sidecars are read first, then the actions,
/// then the path.
pub open spec fn v2_checkpoint_read<F: TableFormat>(
    format: &F,
    value: FfiSnapshotHintV2Checkpoint,
    res: Result<LastCheckpointV2, Error>,
) -> bool {
    match sidecars_error(value) {
        Some(e) => error::fails(res, e),
        None => exists|actions: Result<Option<Vec<HintAction>>, Error>| #[trigger]
            non_file_actions_read(format, value, actions) && match actions {
                Err(e) => res == Err::<LastCheckpointV2, Error>(e),
                Ok(list) => convert::reads(
                    convert::string_error(value.path),
                    v2_checkpoint_value(value, list),
                    res,
                ),
            },
    }
}

/// The checkpoint with sidecars.
pub fn v2_checkpoint<F: TableFormat>(format: &F, value: &FfiSnapshotHintV2Checkpoint) -> (res:
    Result<LastCheckpointV2, Error>)
    ensures
        v2_checkpoint_read(format, *value, res),
{
    let sidecar_files = match sidecars(value) {
        Ok(sidecar_files) => sidecar_files,
        Err(e) => {
            return Err(e);
        },
    };
    let actions = non_file_actions(format, value);
    let ghost read = actions;
    assert(non_file_actions_read(format, *value, read));
    match actions {
        Err(e) => Err(e),
        Ok(non_file_actions) => match string(&value.path) {
            Ok(path) => Ok(
                LastCheckpointV2 {
                    path,
                    size_in_bytes: optional_i64(&value.size_in_bytes),
                    modification_time: optional_i64(&value.modification_time),
                    sidecar_files,
                    non_file_actions,
                },
            ),
            Err(e) => Err(e),
        },
    }
}

/// The error for the fields that are read after the checkpoint with sidecars.
pub open spec fn last_checkpoint_error(value: FfiSnapshotHintLastCheckpoint) -> Option<ErrorView> {
    convert::either(
        convert::optional_usize_error(value.parts),
        convert::either(
            convert::optional_string_error(value.checksum),
            convert::optional_string_map_error(value.tags),
        ),
    )
}

/// The contents of a `_last_checkpoint` file.
pub open spec fn last_checkpoint_value(
    value: FfiSnapshotHintLastCheckpoint,
    v2: Option<LastCheckpointV2>,
) -> LastCheckpointHintView {
    LastCheckpointHintView {
        version: value.version,
        size: value.size,
        parts: convert::optional_usize_value(value.parts),
        size_in_bytes: convert::optional_i64_value(value.size_in_bytes),
        num_of_add_files: convert::optional_i64_value(value.num_of_add_files),
        checkpoint_schema: convert::optional_string_value(value.checkpoint_schema),
        checksum: convert::optional_string_value(value.checksum),
        tags: convert::optional_string_map_value(value.tags),
        v2_checkpoint: v2.deep_view(),
    }
}

/// Whether `res` is the checkpoint with sidecars, where there is one.
pub open spec fn optional_v2_checkpoint_read<F: TableFormat>(
    format: &F,
    value: Option<FfiSnapshotHintV2Checkpoint>,
    res: Result<Option<LastCheckpointV2>, Error>,
) -> bool {
    match value {
        None => res == Ok::<Option<LastCheckpointV2>, Error>(None),
        Some(v2) => match res {
            Ok(Some(read)) => v2_checkpoint_read(format, v2, Ok::<LastCheckpointV2, Error>(read)),
            Ok(None) => false,
            Err(e) => v2_checkpoint_read(format, v2, Err::<LastCheckpointV2, Error>(e)),
        },
    }
}

/// Whether `res` is the contents of the file, once the checkpoint with sidecars has been read.
pub open spec fn last_checkpoint_rest<F: TableFormat>(
    format: &F,
    value: FfiSnapshotHintLastCheckpoint,
    v2: Result<Option<LastCheckpointV2>, Error>,
    res: Result<LastCheckpointHint, Error>,
) -> bool {
    match v2 {
        Err(e) => res == Err::<LastCheckpointHint, Error>(e),
        Ok(v2) => match last_checkpoint_error(value) {
            Some(e) => error::fails(res, e),
            None => exists|read: LastCheckpointHint, answer: Result<(), Error>|
                read.deep_view() == last_checkpoint_value(value, v2) && #[trigger] call_ensures(
                    F::check_last_checkpoint,
                    (format, &read),
                    answer,
                ) && error::accepted(read, answer, res),
        },
    }
}

/// Whether `res` is the contents of a `_last_checkpoint` file: the schema is read first, then the
/// checkpoint with sidecars, then the other fields, and the table format has the last word.
pub open spec fn last_checkpoint_read<F: TableFormat>(
    format: &F,
    value: FfiSnapshotHintLastCheckpoint,
    res: Result<LastCheckpointHint, Error>,
) -> bool {
    match convert::optional_string_error(value.checkpoint_schema) {
        Some(e) => error::fails(res, e),
        None => exists|v2: Result<Option<LastCheckpointV2>, Error>| #[trigger]
            optional_v2_checkpoint_read(format, value.v2_checkpoint, v2) && last_checkpoint_rest(
                format,
                value,
                v2,
                res,
            ),
    }
}

fn optional_v2_checkpoint<F: TableFormat>(
    format: &F,
    value: &Option<FfiSnapshotHintV2Checkpoint>,
) -> (res: Result<Option<LastCheckpointV2>, Error>)
    ensures
        optional_v2_checkpoint_read(format, *value, res),
{
    match value {
        None => Ok(None),
        Some(v2) => match v2_checkpoint(format, v2) {
            Ok(read) => Ok(Some(read)),
            Err(e) => Err(e),
        },
    }
}

fn finish_last_checkpoint<F: TableFormat>(
    format: &F,
    value: &FfiSnapshotHintLastCheckpoint,
    checkpoint_schema: Option<String>,
    v2: Option<LastCheckpointV2>,
) -> (res: Result<LastCheckpointHint, Error>)
    requires
        checkpoint_schema.deep_view() == convert::optional_string_value(value.checkpoint_schema),
    ensures
        last_checkpoint_rest(
            format,
            *value,
            Ok::<Option<LastCheckpointV2>, Error>(v2),
            res,
        ),
{
    let parts = match optional_usize(&value.parts) {
        Ok(parts) => parts,
        Err(e) => {
            return Err(e);
        },
    };
    let checksum = match optional_string(&value.checksum) {
        Ok(checksum) => checksum,
        Err(e) => {
            return Err(e);
        },
    };
    let tags = match optional_string_map(&value.tags) {
        Ok(tags) => tags,
        Err(e) => {
            return Err(e);
        },
    };
    let read = LastCheckpointHint {
        version: value.version,
        size: value.size,
        parts,
        size_in_bytes: optional_i64(&value.size_in_bytes),
        num_of_add_files: optional_i64(&value.num_of_add_files),
        checkpoint_schema,
        checksum,
        tags,
        v2_checkpoint: v2,
    };
    let answer = format.check_last_checkpoint(&read);
    let ghost given = read;
    let ghost answered = answer;
    assert(call_ensures(F::check_last_checkpoint, (format, &given), answered));
    match answer {
        Ok(()) => Ok(read),
        Err(e) => Err(e),
    }
}

/// The contents of a `_last_checkpoint` file.
pub fn last_checkpoint<F: TableFormat>(format: &F, value: &FfiSnapshotHintLastCheckpoint) -> (res:
    Result<LastCheckpointHint, Error>)
    ensures
        last_checkpoint_read(format, *value, res),
{
    let checkpoint_schema = match optional_string(&value.checkpoint_schema) {
        Ok(checkpoint_schema) => checkpoint_schema,
        Err(e) => {
            return Err(e);
        },
    };
    let v2 = optional_v2_checkpoint(format, &value.v2_checkpoint);
    let ghost read = v2;
    assert(optional_v2_checkpoint_read(format, value.v2_checkpoint, read));
    match v2 {
        Ok(v2) => finish_last_checkpoint(format, value, checkpoint_schema, v2),
        Err(e) => Err(e),
    }
}

/// The error for an array of integers.
pub open spec fn i64s_error(value: FfiI64Array) -> Option<ErrorView> {
    convert::array_error(value.ptr, value.len, "integer array"@)
}

/// The integers of an array.
pub fn i64s(value: &FfiI64Array) -> (res: Result<Vec<i64>, Error>)
    ensures
        match res {
            Ok(list) => i64s_error(*value) is None && list@ == convert::elements(
                value.ptr,
                value.len,
            ),
            Err(e) => i64s_error(*value) == Some(e.deep_view()),
        },
{
    let items = match raw_slice(&value.ptr, value.len, "integer array") {
        Ok(items) => items,
        Err(e) => {
            return Err(e);
        },
    };
    let mut list: Vec<i64> = Vec::new();
    let mut i: usize = 0;
    while i < items.len()
        invariant
            i <= items@.len(),
            list@ == items@.take(i as int),
        decreases items@.len() - i,
    {
        list.push(items[i]);
        assert(list@ =~= items@.take(i + 1));
        i = i + 1;
    }
    assert(items@.take(items@.len() as int) =~= items@);
    Ok(list)
}

/// The bins of a histogram.
pub open spec fn histogram_value(value: FfiSnapshotHintFileSizeHistogram) -> FileSizeHistogramView {
    FileSizeHistogramView {
        sorted_bin_boundaries: convert::elements(
            value.sorted_bin_boundaries.ptr,
            value.sorted_bin_boundaries.len,
        ),
        file_counts: convert::elements(value.file_counts.ptr, value.file_counts.len),
        total_bytes: convert::elements(value.total_bytes.ptr, value.total_bytes.len),
    }
}

/// The error for a histogram.
pub open spec fn histogram_error(value: FfiSnapshotHintFileSizeHistogram) -> Option<ErrorView> {
    convert::either(
        i64s_error(value.sorted_bin_boundaries),
        convert::either(
            i64s_error(value.file_counts),
            convert::either(
                i64s_error(value.total_bytes),
                if histogram_value(value).well_formed() {
                    None
                } else {
                    Some(histogram_value(value).malformed())
                },
            ),
        ),
    )
}

fn histogram(value: &FfiSnapshotHintFileSizeHistogram) -> (res: Result<FileSizeHistogram, Error>)
    ensures
        convert::reads(histogram_error(*value), histogram_value(*value), res),
{
    let sorted_bin_boundaries = match i64s(&value.sorted_bin_boundaries) {
        Ok(list) => list,
        Err(e) => {
            return Err(e);
        },
    };
    let file_counts = match i64s(&value.file_counts) {
        Ok(list) => list,
        Err(e) => {
            return Err(e);
        },
    };
    let total_bytes = match i64s(&value.total_bytes) {
        Ok(list) => list,
        Err(e) => {
            return Err(e);
        },
    };
    FileSizeHistogram::try_new(sorted_bin_boundaries, file_counts, total_bytes)
}

/// The errors of the transactions.
pub open spec fn set_transaction_errors(items: Seq<FfiSnapshotHintSetTransaction>) -> Seq<
    Option<ErrorView>,
> {
    items.map_values(|item: FfiSnapshotHintSetTransaction| set_transaction_error(item))
}

/// The error for the transactions of a checksum state.
pub open spec fn set_transactions_error(value: FfiSnapshotHintCrc) -> Option<ErrorView> {
    let array = value.set_transactions;
    if value.has_set_transactions {
        convert::either(
            convert::array_error(array.ptr, array.len, "set-transaction array"@),
            first::first(set_transaction_errors(convert::elements(array.ptr, array.len))),
        )
    } else {
        None
    }
}

/// The transactions of a checksum state, where they are present.
pub open spec fn set_transactions_value(value: FfiSnapshotHintCrc) -> Option<
    Seq<SetTransactionView>,
> {
    let array = value.set_transactions;
    if value.has_set_transactions {
        Some(
            convert::elements(array.ptr, array.len).map_values(
                |item: FfiSnapshotHintSetTransaction| set_transaction_value(item),
            ),
        )
    } else {
        None
    }
}

fn set_transactions(value: &FfiSnapshotHintCrc) -> (res: Result<Option<Vec<SetTransaction>>, Error>)
    ensures
        convert::reads(set_transactions_error(*value), set_transactions_value(*value), res),
{
    if !value.has_set_transactions {
        return Ok(None);
    }
    let array = &value.set_transactions;
    let items = match raw_slice(&array.ptr, array.len, "set-transaction array") {
        Ok(items) => items,
        Err(e) => {
            return Err(e);
        },
    };
    let ghost errors = set_transaction_errors(items@);
    let mut list: Vec<SetTransaction> = Vec::new();
    let mut i: usize = 0;
    while i < items.len()
        invariant
            i <= items@.len(),
            value.has_set_transactions,
            items@ == convert::elements(value.set_transactions.ptr, value.set_transactions.len),
            convert::array_error(
                value.set_transactions.ptr,
                value.set_transactions.len,
                "set-transaction array"@,
            ) is None,
            errors == set_transaction_errors(items@),
            list@.len() == i,
            forall|j: int| 0 <= j < i ==> (#[trigger] errors[j]) is None,
            forall|j: int|
                0 <= j < i ==> (#[trigger] list@[j]).deep_view() == set_transaction_value(
                    items@[j],
                ),
        decreases items@.len() - i,
    {
        match set_transaction(&items[i]) {
            Ok(read) => {
                list.push(read);
            },
            Err(e) => {
                proof {
                    first::lemma_first_at(errors, i as int);
                }
                return Err(e);
            },
        }
        i = i + 1;
    }
    proof {
        first::lemma_first(errors);
        assert(list.deep_view() =~= set_transactions_value(*value)->0);
    }
    Ok(Some(list))
}

/// The errors of the domains.
pub open spec fn domain_errors(items: Seq<FfiSnapshotHintDomainMetadata>) -> Seq<
    Option<ErrorView>,
> {
    items.map_values(|item: FfiSnapshotHintDomainMetadata| domain_metadata_error(item))
}

/// The error for the domains of a checksum state.
pub open spec fn domains_error(value: FfiSnapshotHintCrc) -> Option<ErrorView> {
    let array = value.domain_metadata;
    if value.has_domain_metadata {
        convert::either(
            convert::array_error(array.ptr, array.len, "domain-metadata array"@),
            first::first(domain_errors(convert::elements(array.ptr, array.len))),
        )
    } else {
        None
    }
}

/// The domains of a checksum state, where they are present.
pub open spec fn domains_value(value: FfiSnapshotHintCrc) -> Option<Seq<DomainMetadataView>> {
    let array = value.domain_metadata;
    if value.has_domain_metadata {
        Some(
            convert::elements(array.ptr, array.len).map_values(
                |item: FfiSnapshotHintDomainMetadata| domain_metadata_value(item),
            ),
        )
    } else {
        None
    }
}

fn domains(value: &FfiSnapshotHintCrc) -> (res: Result<Option<Vec<DomainMetadata>>, Error>)
    ensures
        convert::reads(domains_error(*value), domains_value(*value), res),
{
    if !value.has_domain_metadata {
        return Ok(None);
    }
    let array = &value.domain_metadata;
    let items = match raw_slice(&array.ptr, array.len, "domain-metadata array") {
        Ok(items) => items,
        Err(e) => {
            return Err(e);
        },
    };
    let ghost errors = domain_errors(items@);
    let mut list: Vec<DomainMetadata> = Vec::new();
    let mut i: usize = 0;
    while i < items.len()
        invariant
            i <= items@.len(),
            value.has_domain_metadata,
            items@ == convert::elements(value.domain_metadata.ptr, value.domain_metadata.len),
            convert::array_error(
                value.domain_metadata.ptr,
                value.domain_metadata.len,
                "domain-metadata array"@,
            ) is None,
            errors == domain_errors(items@),
            list@.len() == i,
            forall|j: int| 0 <= j < i ==> (#[trigger] errors[j]) is None,
            forall|j: int|
                0 <= j < i ==> (#[trigger] list@[j]).deep_view() == domain_metadata_value(
                    items@[j],
                ),
        decreases items@.len() - i,
    {
        match domain_metadata(&items[i]) {
            Ok(read) => {
                list.push(read);
            },
            Err(e) => {
                proof {
                    first::lemma_first_at(errors, i as int);
                }
                return Err(e);
            },
        }
        i = i + 1;
    }
    proof {
        first::lemma_first(errors);
        assert(list.deep_view() =~= domains_value(*value)->0);
    }
    Ok(Some(list))
}

/// The error for the fields of a checksum state.
pub open spec fn crc_error(value: FfiSnapshotHintCrc) -> Option<ErrorView> {
    convert::either(
        match value.file_size_histogram {
            Some(h) => histogram_error(h),
            None => None,
        },
        convert::either(set_transactions_error(value), domains_error(value)),
    )
}

/// The parts of a checksum state.
pub open spec fn crc_parts(
    value: FfiSnapshotHintCrc,
    metadata: MetadataView,
    protocol: ProtocolView,
) -> CrcRawView {
    CrcRawView::complete(
        metadata,
        protocol,
        value.num_files,
        value.table_size_bytes,
        match value.file_size_histogram {
            Some(h) => Some(histogram_value(h)),
            None => None,
        },
        convert::optional_i64_value(value.in_commit_timestamp),
        set_transactions_value(value),
        domains_value(value),
    )
}

/// Whether `res` is the checksum state, where its fields can be read and agree.
pub open spec fn crc_read(
    value: FfiSnapshotHintCrc,
    version: u64,
    metadata: MetadataView,
    protocol: ProtocolView,
    res: Result<Crc, Error>,
) -> bool {
    match crc_error(value) {
        Some(e) => error::fails(res, e),
        None => raw::complete_state(crc_parts(value, metadata, protocol), version, res),
    }
}

/// The checksum state, where its fields can be read and agree.
pub fn crc(value: &FfiSnapshotHintCrc, version: u64, metadata: Metadata, protocol: Protocol) -> (res:
    Result<Crc, Error>)
    ensures
        crc_read(*value, version, metadata.deep_view(), protocol.deep_view(), res),
{
    let file_size_histogram = match &value.file_size_histogram {
        Some(h) => match histogram(h) {
            Ok(read) => Some(read),
            Err(e) => {
                return Err(e);
            },
        },
        None => None,
    };
    let set_transactions = match set_transactions(value) {
        Ok(list) => list,
        Err(e) => {
            return Err(e);
        },
    };
    let domain_metadata = match domains(value) {
        Ok(list) => list,
        Err(e) => {
            return Err(e);
        },
    };
    Crc::try_new_complete(
        version,
        metadata,
        protocol,
        value.num_files,
        value.table_size_bytes,
        file_size_histogram,
        optional_i64(&value.in_commit_timestamp),
        set_transactions,
        domain_metadata,
    )
}

} // verus!
