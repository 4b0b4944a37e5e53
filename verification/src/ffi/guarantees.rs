//! What is read of the values that a C caller passes, said of the bytes and fields themselves, and
//! what a hint holds once it is finished.

use vstd::prelude::*;

use crate::actions::{DomainMetadata, Metadata, Protocol, SetTransaction};
use crate::crc::checksum::Crc;
use crate::error;
use crate::error::Error;
use crate::error::ErrorView;
use crate::ffi::components;
use crate::ffi::convert;
use crate::ffi::first;
use crate::ffi::values::{
    FfiOptionalI64, FfiOptionalString, FfiOptionalStringArray, FfiOptionalStringMap,
    FfiOptionalU64, FfiSnapshotHintAction, FfiSnapshotHintCheckpointMetadata, FfiSnapshotHintCrc,
    FfiSnapshotHintDomainMetadata, FfiSnapshotHintLastCheckpoint, FfiSnapshotHintMetadata,
    FfiSnapshotHintProtocol, FfiSnapshotHintSetTransaction, FfiSnapshotHintSidecar,
    FfiSnapshotHintV2Checkpoint, FfiStringArray, FfiStringMap, KernelStringSlice,
    SNAPSHOT_HINT_ACTION_CHECKPOINT_METADATA, SNAPSHOT_HINT_ACTION_DOMAIN_METADATA,
    SNAPSHOT_HINT_ACTION_METADATA, SNAPSHOT_HINT_ACTION_PROTOCOL,
    SNAPSHOT_HINT_ACTION_TRANSACTION, SNAPSHOT_HINT_VERSION_STATUS_LATEST,
    SNAPSHOT_HINT_VERSION_STATUS_UNVERIFIED,
};
use crate::ffi::visitor;
use crate::ffi::visitor::{FfiSnapshotHintState, SnapshotHintVisitorState};
use crate::last_checkpoint::{
    CheckpointMetadata, HintAction, LastCheckpointHint, LastCheckpointV2, Sidecar,
};
use crate::log_files::{LogPath, LogSegmentFiles};
use crate::snapshot::engine::TableFormat;
use crate::snapshot::types::{SnapshotHint, SnapshotHintVersionStatus};
use crate::string_map;
use crate::string_map::StringMap;
use crate::text;

verus! {

/// Whether the text is what the bytes encode in UTF-8.
pub open spec fn decodes(text: String, value: KernelStringSlice) -> bool {
    vstd::utf8::valid_utf8(value.bytes@) && text@ == vstd::utf8::decode_utf8(value.bytes@)
}

/// Whether an optional text is there exactly where the value is, and is what its bytes encode.
pub open spec fn decodes_optional(text: Option<String>, value: FfiOptionalString) -> bool {
    match text {
        Some(text) => value.has_value && decodes(text, value.value),
        None => !value.has_value,
    }
}

/// Whether a pointer addresses as many elements as the length says, or the length is zero.
pub open spec fn addresses<T>(ptr: Option<Vec<T>>, len: usize) -> bool {
    len > 0 ==> ptr is Some && ptr->0@.len() >= len
}

/// Whether the texts are what the first `len` strings of the array encode, in their order.
pub open spec fn decodes_list(texts: Vec<String>, value: FfiStringArray) -> bool {
    &&& addresses(value.ptr, value.len)
    &&& texts@.len() == value.len
    &&& forall|i: int|
        0 <= i < value.len ==> decodes(#[trigger] texts@[i], value.ptr->0@[i])
}

/// Whether an optional list is there exactly where the value is, and holds its texts.
pub open spec fn decodes_optional_list(
    texts: Option<Vec<String>>,
    value: FfiOptionalStringArray,
) -> bool {
    match texts {
        Some(texts) => value.has_value && decodes_list(texts, value.value),
        None => !value.has_value,
    }
}

/// Whether the map holds the entries of the value: at every key the value of the last entry with
/// that key, and no other key.
pub open spec fn decodes_map(m: StringMap<String>, value: FfiStringMap) -> bool {
    let entries = value.ptr->0@;
    let read = m.deep_view();
    &&& addresses(value.ptr, value.len)
    &&& forall|i: int|
        0 <= i < value.len ==> vstd::utf8::valid_utf8((#[trigger] entries[i]).key.bytes@)
            && vstd::utf8::valid_utf8(entries[i].value.bytes@)
    &&& forall|i: int|
        0 <= i < value.len && (forall|j: int|
            i < j < value.len ==> vstd::utf8::decode_utf8((#[trigger] entries[j]).key.bytes@)
                != vstd::utf8::decode_utf8(entries[i].key.bytes@)) ==> read.contains_key(
            vstd::utf8::decode_utf8((#[trigger] entries[i]).key.bytes@),
        ) && read[vstd::utf8::decode_utf8(entries[i].key.bytes@)] == vstd::utf8::decode_utf8(
            entries[i].value.bytes@,
        )
    &&& forall|k: Seq<char>| #[trigger]
        read.contains_key(k) ==> exists|i: int|
            0 <= i < value.len && vstd::utf8::decode_utf8((#[trigger] entries[i]).key.bytes@) == k
}

/// Whether an optional map is there exactly where the value is, and holds its entries.
pub open spec fn decodes_optional_map(
    m: Option<StringMap<String>>,
    value: FfiOptionalStringMap,
) -> bool {
    match m {
        Some(m) => value.has_value && decodes_map(m, value.value),
        None => !value.has_value,
    }
}

/// Whether an optional integer is there exactly where the value is.
pub open spec fn same_optional(read: Option<i64>, value: FfiOptionalI64) -> bool {
    match read {
        Some(read) => value.has_value && read == value.value,
        None => !value.has_value,
    }
}

/// Bytes are read exactly where they are UTF-8, as the text that they encode.
pub proof fn law_string_read(value: KernelStringSlice, res: Result<String, Error>)
    requires
        convert::reads(convert::string_error(value), convert::string_value(value), res),
    ensures
        match res {
            Ok(text) => decodes(text, value),
            Err(e) => !vstd::utf8::valid_utf8(value.bytes@) && e.deep_view() is Utf8Error,
        },
{
}

/// An array of strings is read exactly where it has as many as its length says and all of them are
/// UTF-8, as their texts in their order. A pointer that does not address as many is an invalid hint.
pub proof fn law_strings_read(value: FfiStringArray, res: Result<Vec<String>, Error>)
    requires
        convert::reads(convert::strings_error(value), convert::strings_value(value), res),
    ensures
        match res {
            Ok(texts) => decodes_list(texts, value),
            Err(e) => {
                ||| !addresses(value.ptr, value.len) && e.deep_view() is InvalidSnapshotHint
                ||| addresses(value.ptr, value.len) && e.deep_view() is Utf8Error && exists|i: int|
                    0 <= i < value.len && !vstd::utf8::valid_utf8(
                        (#[trigger] value.ptr->0@[i]).bytes@,
                    )
            },
        },
{
    let items = convert::elements(value.ptr, value.len);
    let errors = convert::string_errors(items);
    first::lemma_first(errors);
    if addresses(value.ptr, value.len) {
        assert(items.len() == value.len);
        assert forall|i: int| 0 <= i < value.len implies items[i] == #[trigger] value.ptr->0@[i]
            && errors[i] == convert::string_error(value.ptr->0@[i]) by {}
        match res {
            Ok(texts) => {
                assert(texts.deep_view() == convert::strings_value(value));
                assert(texts.deep_view().len() == value.len);
                assert forall|i: int| 0 <= i < value.len implies decodes(
                    #[trigger] texts@[i],
                    value.ptr->0@[i],
                ) by {
                    assert(texts.deep_view()[i] == texts@[i]@);
                    assert(errors[i] is None);
                    assert(items[i] == value.ptr->0@[i]);
                }
            },
            Err(e) => {
                let i = choose|i: int|
                    0 <= i < errors.len() && (#[trigger] errors[i]) == first::first(errors)
                        && forall|j: int| 0 <= j < i ==> (#[trigger] errors[j]) is None;
                assert(items[i] == value.ptr->0@[i]);
                assert(!vstd::utf8::valid_utf8(value.ptr->0@[i].bytes@));
            },
        }
    }
}

proof fn lemma_last_wins(pairs: Seq<(Seq<char>, Seq<char>)>, i: int)
    requires
        0 <= i < pairs.len(),
        forall|j: int| i < j < pairs.len() ==> (#[trigger] pairs[j]).0 != pairs[i].0,
    ensures
        string_map::pairs_map(pairs).contains_key(pairs[i].0),
        string_map::pairs_map(pairs)[pairs[i].0] == pairs[i].1,
    decreases pairs.len(),
{
    let last = pairs.len() - 1;
    if i < last {
        let rest = pairs.drop_last();
        assert forall|j: int| i < j < rest.len() implies (#[trigger] rest[j]).0 != rest[i].0 by {
            assert(rest[j] == pairs[j]);
        }
        lemma_last_wins(rest, i);
        assert(rest[i] == pairs[i]);
        assert(pairs[last].0 != pairs[i].0);
    }
}

/// A map is read exactly where it has as many entries as its length says and all keys and values
/// are UTF-8; of entries with one key the last one counts.
pub proof fn law_string_map_read(value: FfiStringMap, res: Result<StringMap<String>, Error>)
    requires
        convert::reads(convert::string_map_error(value), convert::string_map_value(value), res),
    ensures
        match res {
            Ok(m) => decodes_map(m, value),
            Err(e) => {
                ||| !addresses(value.ptr, value.len) && e.deep_view() is InvalidSnapshotHint
                ||| addresses(value.ptr, value.len) && e.deep_view() is Utf8Error && exists|i: int|
                    0 <= i < value.len && !(vstd::utf8::valid_utf8(
                        (#[trigger] value.ptr->0@[i]).key.bytes@,
                    ) && vstd::utf8::valid_utf8(value.ptr->0@[i].value.bytes@))
            },
        },
{
    let items = convert::elements(value.ptr, value.len);
    let errors = convert::entry_errors(items);
    let pairs = convert::entry_pairs(items);
    first::lemma_first(errors);
    if addresses(value.ptr, value.len) {
        let entries = value.ptr->0@;
        assert(items.len() == value.len);
        assert forall|i: int| 0 <= i < value.len implies items[i] == #[trigger] entries[i]
            && errors[i] == convert::either(
            convert::string_error(entries[i].key),
            convert::string_error(entries[i].value),
        ) && pairs[i] == (
            vstd::utf8::decode_utf8(entries[i].key.bytes@),
            vstd::utf8::decode_utf8(entries[i].value.bytes@),
        ) by {}
        match res {
            Ok(m) => {
                assert forall|i: int| 0 <= i < value.len implies vstd::utf8::valid_utf8(
                    (#[trigger] entries[i]).key.bytes@,
                ) && vstd::utf8::valid_utf8(entries[i].value.bytes@) by {
                    assert(errors[i] is None);
                    assert(items[i] == entries[i]);
                }
                assert forall|i: int|
                    0 <= i < value.len && (forall|j: int|
                        i < j < value.len ==> vstd::utf8::decode_utf8(
                            (#[trigger] entries[j]).key.bytes@,
                        ) != vstd::utf8::decode_utf8(
                            entries[i].key.bytes@,
                        )) implies m.deep_view().contains_key(
                    vstd::utf8::decode_utf8((#[trigger] entries[i]).key.bytes@),
                ) && m.deep_view()[vstd::utf8::decode_utf8(entries[i].key.bytes@)]
                    == vstd::utf8::decode_utf8(entries[i].value.bytes@) by {
                    assert(pairs[i].0 == vstd::utf8::decode_utf8(entries[i].key.bytes@));
                    assert forall|j: int| i < j < pairs.len() implies (#[trigger] pairs[j]).0
                        != pairs[i].0 by {
                        assert(entries[j] == items[j]);
                    }
                    lemma_last_wins(pairs, i);
                }
                assert forall|k: Seq<char>| #[trigger]
                    m.deep_view().contains_key(k) implies exists|i: int|
                    0 <= i < value.len && vstd::utf8::decode_utf8(
                        (#[trigger] entries[i]).key.bytes@,
                    ) == k by {
                    string_map::lemma_pairs_map_keys(pairs, k);
                    let i = choose|i: int| 0 <= i < pairs.len() && (#[trigger] pairs[i]).0 == k;
                    assert(entries[i] == items[i]);
                }
            },
            Err(e) => {
                let i = choose|i: int|
                    0 <= i < errors.len() && (#[trigger] errors[i]) == first::first(errors)
                        && forall|j: int| 0 <= j < i ==> (#[trigger] errors[j]) is None;
                assert(items[i] == entries[i]);
            },
        }
    } else {
        assert(convert::array_error(value.ptr, value.len, "string map"@) is Some);
    }
}

proof fn lemma_strings(value: FfiStringArray, texts: Vec<String>)
    requires
        convert::strings_error(value) is None,
        texts.deep_view() == convert::strings_value(value),
    ensures
        decodes_list(texts, value),
{
    law_strings_read(value, Ok(texts));
}

proof fn lemma_optional_strings(value: FfiOptionalStringArray, texts: Option<Vec<String>>)
    requires
        convert::optional_strings_error(value) is None,
        texts.deep_view() == convert::optional_strings_value(value),
    ensures
        decodes_optional_list(texts, value),
{
    if let Some(list) = texts {
        lemma_strings(value.value, list);
    }
}

proof fn lemma_string_map(value: FfiStringMap, m: StringMap<String>)
    requires
        convert::string_map_error(value) is None,
        m.deep_view() == convert::string_map_value(value),
    ensures
        decodes_map(m, value),
{
    law_string_map_read(value, Ok(m));
}

proof fn lemma_optional_string_map(value: FfiOptionalStringMap, m: Option<StringMap<String>>)
    requires
        convert::optional_string_map_error(value) is None,
        m.deep_view() == convert::optional_string_map_value(value),
    ensures
        decodes_optional_map(m, value),
{
    if let Some(map) = m {
        lemma_string_map(value.value, map);
    }
}

/// A list that is present, even if empty, is told apart from one that is absent.
pub proof fn law_optional_strings_read(
    value: FfiOptionalStringArray,
    texts: Option<Vec<String>>,
)
    requires
        convert::reads(
            convert::optional_strings_error(value),
            convert::optional_strings_value(value),
            Ok::<Option<Vec<String>>, Error>(texts),
        ),
    ensures
        decodes_optional_list(texts, value),
{
    lemma_optional_strings(value, texts);
}

/// A map that is present, even if empty, is told apart from one that is absent.
pub proof fn law_optional_string_map_read(
    value: FfiOptionalStringMap,
    m: Option<StringMap<String>>,
)
    requires
        convert::reads(
            convert::optional_string_map_error(value),
            convert::optional_string_map_value(value),
            Ok::<Option<StringMap<String>>, Error>(m),
        ),
    ensures
        decodes_optional_map(m, value),
{
    lemma_optional_string_map(value, m);
}

/// A protocol that is read has every field that was passed, and the table format accepted it.
pub proof fn law_protocol_read<F: TableFormat>(
    format: &F,
    value: FfiSnapshotHintProtocol,
    read: Protocol,
)
    requires
        components::protocol_read(format, value, Ok::<Protocol, Error>(read)),
    ensures
        read.min_reader_version == value.min_reader_version,
        read.min_writer_version == value.min_writer_version,
        decodes_optional_list(read.reader_features, value.reader_features),
        decodes_optional_list(read.writer_features, value.writer_features),
        call_ensures(F::check_protocol, (format, &read), Ok::<(), Error>(())),
{
    let (given, answer) = choose|given: Protocol, answer: Result<(), Error>|
        given.deep_view() == components::protocol_value(value) && #[trigger] call_ensures(
            F::check_protocol,
            (format, &given),
            answer,
        ) && error::accepted(given, answer, Ok::<Protocol, Error>(read));
    if let Ok(unit) = answer {
        assert(unit == ());
    }
    lemma_optional_strings(value.reader_features, read.reader_features);
    lemma_optional_strings(value.writer_features, read.writer_features);
}

/// Metadata that is read has every field that was passed.
pub proof fn law_metadata_read(value: FfiSnapshotHintMetadata, read: Metadata)
    requires
        convert::reads(
            components::metadata_error(value),
            components::metadata_value(value),
            Ok::<Metadata, Error>(read),
        ),
    ensures
        decodes(read.id, value.id),
        decodes_optional(read.name, value.name),
        decodes_optional(read.description, value.description),
        decodes(read.format_provider, value.format_provider),
        decodes_map(read.format_options, value.format_options),
        decodes(read.schema_string, value.schema_string),
        decodes_list(read.partition_columns, value.partition_columns),
        same_optional(read.created_time, value.created_time),
        decodes_map(read.configuration, value.configuration),
{
    lemma_string_map(value.format_options, read.format_options);
    lemma_strings(value.partition_columns, read.partition_columns);
    lemma_string_map(value.configuration, read.configuration);
}

/// A transaction that is read has every field that was passed.
pub proof fn law_set_transaction_read(
    value: FfiSnapshotHintSetTransaction,
    res: Result<SetTransaction, Error>,
)
    requires
        convert::reads(
            components::set_transaction_error(value),
            components::set_transaction_value(value),
            res,
        ),
    ensures
        match res {
            Ok(read) => {
                &&& decodes(read.app_id, value.app_id)
                &&& read.version == value.version
                &&& same_optional(read.last_updated, value.last_updated)
            },
            Err(e) => !vstd::utf8::valid_utf8(value.app_id.bytes@) && e.deep_view() is Utf8Error,
        },
{
}

/// A domain that is read has every field that was passed.
pub proof fn law_domain_metadata_read(
    value: FfiSnapshotHintDomainMetadata,
    res: Result<DomainMetadata, Error>,
)
    requires
        convert::reads(
            components::domain_metadata_error(value),
            components::domain_metadata_value(value),
            res,
        ),
    ensures
        match res {
            Ok(read) => {
                &&& decodes(read.domain, value.domain)
                &&& decodes(read.configuration, value.configuration)
                &&& read.removed == value.removed
            },
            Err(e) => !(vstd::utf8::valid_utf8(value.domain.bytes@) && vstd::utf8::valid_utf8(
                value.configuration.bytes@,
            )) && e.deep_view() is Utf8Error,
        },
{
}

/// Checkpoint metadata that is read has every field that was passed.
pub proof fn law_checkpoint_metadata_read(
    value: FfiSnapshotHintCheckpointMetadata,
    read: CheckpointMetadata,
)
    requires
        convert::reads(
            components::checkpoint_metadata_error(value),
            components::checkpoint_metadata_value(value),
            Ok::<CheckpointMetadata, Error>(read),
        ),
    ensures
        read.version == value.version,
        decodes_optional_map(read.tags, value.tags),
{
    lemma_optional_string_map(value.tags, read.tags);
}

/// A sidecar that is read has every field that was passed.
pub proof fn law_sidecar_read(value: FfiSnapshotHintSidecar, read: Sidecar)
    requires
        convert::reads(
            components::sidecar_error(value),
            components::sidecar_value(value),
            Ok::<Sidecar, Error>(read),
        ),
    ensures
        decodes(read.path, value.path),
        read.size_in_bytes == value.size_in_bytes,
        read.modification_time == value.modification_time,
        decodes_optional_map(read.tags, value.tags),
{
    lemma_optional_string_map(value.tags, read.tags);
}

/// The integers of the interface: freshness claims and kinds of actions.
pub proof fn law_interface_integers()
    ensures
        SNAPSHOT_HINT_VERSION_STATUS_UNVERIFIED == 0,
        SNAPSHOT_HINT_VERSION_STATUS_LATEST == 1,
        SNAPSHOT_HINT_ACTION_METADATA == 0,
        SNAPSHOT_HINT_ACTION_PROTOCOL == 1,
        SNAPSHOT_HINT_ACTION_TRANSACTION == 2,
        SNAPSHOT_HINT_ACTION_DOMAIN_METADATA == 3,
        SNAPSHOT_HINT_ACTION_CHECKPOINT_METADATA == 4,
{
}

/// An action that is read is of the kind that its integer stands for, with every field of the
/// payload of that kind.
pub proof fn law_action_read<F: TableFormat>(
    format: &F,
    value: FfiSnapshotHintAction,
    read: HintAction,
)
    requires
        components::action_read(format, value, Ok::<HintAction, Error>(read)),
    ensures
        match read {
            HintAction::Metadata(read) => value.kind == 0 && value.value.metadata is Some && {
                let payload = value.value.metadata->0;
                &&& decodes(read.id, payload.id)
                &&& decodes_optional(read.name, payload.name)
                &&& decodes_optional(read.description, payload.description)
                &&& decodes(read.format_provider, payload.format_provider)
                &&& decodes_map(read.format_options, payload.format_options)
                &&& decodes(read.schema_string, payload.schema_string)
                &&& decodes_list(read.partition_columns, payload.partition_columns)
                &&& same_optional(read.created_time, payload.created_time)
                &&& decodes_map(read.configuration, payload.configuration)
            },
            HintAction::Protocol(read) => value.kind == 1 && value.value.protocol is Some && {
                let payload = value.value.protocol->0;
                &&& read.min_reader_version == payload.min_reader_version
                &&& read.min_writer_version == payload.min_writer_version
                &&& decodes_optional_list(read.reader_features, payload.reader_features)
                &&& decodes_optional_list(read.writer_features, payload.writer_features)
                &&& call_ensures(F::check_protocol, (format, &read), Ok::<(), Error>(()))
            },
            HintAction::Txn(read) => value.kind == 2 && value.value.transaction is Some && {
                let payload = value.value.transaction->0;
                &&& decodes(read.app_id, payload.app_id)
                &&& read.version == payload.version
                &&& same_optional(read.last_updated, payload.last_updated)
            },
            HintAction::DomainMetadata(read) => value.kind == 3
                && value.value.domain_metadata is Some && {
                let payload = value.value.domain_metadata->0;
                &&& decodes(read.domain, payload.domain)
                &&& decodes(read.configuration, payload.configuration)
                &&& read.removed == payload.removed
            },
            HintAction::CheckpointMetadata(read) => value.kind == 4
                && value.value.checkpoint_metadata is Some && {
                let payload = value.value.checkpoint_metadata->0;
                &&& read.version == payload.version
                &&& decodes_optional_map(read.tags, payload.tags)
            },
        },
{
    match read {
        HintAction::Metadata(inner) => {
            law_metadata_read(value.value.metadata->0, inner);
        },
        HintAction::Protocol(inner) => {
            law_protocol_read(format, value.value.protocol->0, inner);
        },
        HintAction::Txn(inner) => {
            law_set_transaction_read(value.value.transaction->0, Ok(inner));
        },
        HintAction::DomainMetadata(inner) => {
            law_domain_metadata_read(value.value.domain_metadata->0, Ok(inner));
        },
        HintAction::CheckpointMetadata(inner) => {
            law_checkpoint_metadata_read(value.value.checkpoint_metadata->0, inner);
        },
    }
}

/// An integer that stands for no kind of action, or a payload that is null, is an invalid hint.
pub proof fn law_unusable_action_is_an_invalid_hint<F: TableFormat>(
    format: &F,
    value: FfiSnapshotHintAction,
    res: Result<HintAction, Error>,
)
    requires
        components::action_read(format, value, res),
        ({
            ||| value.kind > 4
            ||| value.kind == 0 && value.value.metadata is None
            ||| value.kind == 1 && value.value.protocol is None
            ||| value.kind == 2 && value.value.transaction is None
            ||| value.kind == 3 && value.value.domain_metadata is None
            ||| value.kind == 4 && value.value.checkpoint_metadata is None
        }),
    ensures
        res is Err,
        res->Err_0.deep_view() is InvalidSnapshotHint,
{
}

/// Whether an action has the value of one that was read of what was passed.
pub open spec fn action_kept<F: TableFormat>(
    format: &F,
    value: FfiSnapshotHintAction,
    kept: HintAction,
) -> bool {
    exists|read: HintAction|
        read.deep_view() == kept.deep_view() && #[trigger] components::action_read(
            format,
            value,
            Ok::<HintAction, Error>(read),
        )
}

/// A checkpoint with sidecars that is read has every field that was passed, the sidecars and the
/// actions in their order; a list is there exactly where it was passed.
pub proof fn law_v2_checkpoint_read<F: TableFormat>(
    format: &F,
    value: FfiSnapshotHintV2Checkpoint,
    read: LastCheckpointV2,
)
    requires
        components::v2_checkpoint_read(format, value, Ok::<LastCheckpointV2, Error>(read)),
    ensures
        decodes(read.path, value.path),
        same_optional(read.size_in_bytes, value.size_in_bytes),
        same_optional(read.modification_time, value.modification_time),
        match read.sidecar_files {
            None => !value.has_sidecar_files,
            Some(list) => {
                &&& value.has_sidecar_files
                &&& addresses(value.sidecar_files.ptr, value.sidecar_files.len)
                &&& list@.len() == value.sidecar_files.len
                &&& forall|i: int|
                    0 <= i < list@.len() ==> {
                        &&& decodes(
                            (#[trigger] list@[i]).path,
                            value.sidecar_files.ptr->0@[i].path,
                        )
                        &&& list@[i].size_in_bytes == value.sidecar_files.ptr->0@[i].size_in_bytes
                        &&& list@[i].modification_time
                            == value.sidecar_files.ptr->0@[i].modification_time
                        &&& decodes_optional_map(
                            list@[i].tags,
                            value.sidecar_files.ptr->0@[i].tags,
                        )
                    }
            },
        },
        match read.non_file_actions {
            None => !value.has_non_file_actions,
            Some(list) => {
                &&& value.has_non_file_actions
                &&& addresses(value.non_file_actions.ptr, value.non_file_actions.len)
                &&& list@.len() == value.non_file_actions.len
                &&& forall|i: int|
                    0 <= i < list@.len() ==> action_kept(
                        format,
                        value.non_file_actions.ptr->0@[i],
                        #[trigger] list@[i],
                    )
            },
        },
{
    let actions = choose|actions: Result<Option<Vec<HintAction>>, Error>| #[trigger]
        components::non_file_actions_read(format, value, actions) && match actions {
            Err(e) => false,
            Ok(list) => convert::reads(
                convert::string_error(value.path),
                components::v2_checkpoint_value(value, list),
                Ok::<LastCheckpointV2, Error>(read),
            ),
        };
    let given = actions->Ok_0;
    assert(read.non_file_actions.deep_view() == given.deep_view());
    if let Some(list) = read.non_file_actions {
        assert(list.deep_view() == given->0.deep_view());
        assert(list.deep_view().len() == given->0.deep_view().len());
        let items = convert::elements(value.non_file_actions.ptr, value.non_file_actions.len);
        assert(items.len() == value.non_file_actions.len);
        assert forall|i: int| 0 <= i < list@.len() implies action_kept(
            format,
            value.non_file_actions.ptr->0@[i],
            #[trigger] list@[i],
        ) by {
            let one = given->0@[i];
            assert(list.deep_view()[i] == list@[i].deep_view());
            assert(given->0.deep_view()[i] == one.deep_view());
            assert(items[i] == value.non_file_actions.ptr->0@[i]);
            assert(components::action_read(format, items[i], Ok::<HintAction, Error>(one)));
        }
    }
    if let Some(list) = read.sidecar_files {
        let files = value.sidecar_files;
        let items = convert::elements(files.ptr, files.len);
        let errors = components::sidecar_errors(items);
        first::lemma_first(errors);
        assert(items.len() == files.len);
        assert(list.deep_view() == components::sidecars_value(value)->0);
        assert(list.deep_view().len() == items.len());
        assert forall|i: int| 0 <= i < list@.len() implies {
            &&& decodes((#[trigger] list@[i]).path, files.ptr->0@[i].path)
            &&& list@[i].size_in_bytes == files.ptr->0@[i].size_in_bytes
            &&& list@[i].modification_time == files.ptr->0@[i].modification_time
            &&& decodes_optional_map(list@[i].tags, files.ptr->0@[i].tags)
        } by {
            assert(list.deep_view()[i] == list@[i].deep_view());
            assert(items[i] == files.ptr->0@[i]);
            assert(errors[i] is None);
            law_sidecar_read(items[i], list@[i]);
        }
    }
}

/// The contents of a `_last_checkpoint` file that are read have every field that was passed, and
/// the table format accepted them.
pub proof fn law_last_checkpoint_read<F: TableFormat>(
    format: &F,
    value: FfiSnapshotHintLastCheckpoint,
    read: LastCheckpointHint,
)
    requires
        components::last_checkpoint_read(format, value, Ok::<LastCheckpointHint, Error>(read)),
    ensures
        read.version == value.version,
        read.size == value.size,
        match read.parts {
            Some(parts) => value.parts.has_value && parts == value.parts.value,
            None => !value.parts.has_value,
        },
        same_optional(read.size_in_bytes, value.size_in_bytes),
        same_optional(read.num_of_add_files, value.num_of_add_files),
        decodes_optional(read.checkpoint_schema, value.checkpoint_schema),
        decodes_optional(read.checksum, value.checksum),
        decodes_optional_map(read.tags, value.tags),
        read.v2_checkpoint is Some <==> value.v2_checkpoint is Some,
        read.v2_checkpoint is Some ==> exists|v2: LastCheckpointV2| #[trigger]
            components::v2_checkpoint_read(
                format,
                value.v2_checkpoint->0,
                Ok::<LastCheckpointV2, Error>(v2),
            ) && v2.deep_view() == read.v2_checkpoint->0.deep_view(),
        call_ensures(F::check_last_checkpoint, (format, &read), Ok::<(), Error>(())),
{
    let v2 = choose|v2: Result<Option<LastCheckpointV2>, Error>| #[trigger]
        components::optional_v2_checkpoint_read(format, value.v2_checkpoint, v2)
            && components::last_checkpoint_rest(
            format,
            value,
            v2,
            Ok::<LastCheckpointHint, Error>(read),
        );
    let given = v2->Ok_0;
    let (made, answer) = choose|made: LastCheckpointHint, answer: Result<(), Error>|
        made.deep_view() == components::last_checkpoint_value(value, given)
            && #[trigger] call_ensures(F::check_last_checkpoint, (format, &made), answer)
            && error::accepted(made, answer, Ok::<LastCheckpointHint, Error>(read));
    if let Ok(unit) = answer {
        assert(unit == ());
    }
    lemma_optional_string_map(value.tags, read.tags);
    assert(read.v2_checkpoint.deep_view() == given.deep_view());
    if let Some(inner) = given {
        assert(components::v2_checkpoint_read(
            format,
            value.v2_checkpoint->0,
            Ok::<LastCheckpointV2, Error>(inner),
        ));
    }
}

/// A checksum state that is read has the version, metadata and protocol of the hint, the statistics
/// and the timestamp that were passed, and complete lists exactly where they were passed, with
/// every element that was passed.
pub proof fn law_crc_read(
    value: FfiSnapshotHintCrc,
    version: u64,
    metadata: Metadata,
    protocol: Protocol,
    read: Crc,
)
    requires
        components::crc_read(
            value,
            version,
            metadata.deep_view(),
            protocol.deep_view(),
            Ok::<Crc, Error>(read),
        ),
    ensures
        read.deep_view().valid(),
        read.version == version,
        read.metadata.deep_view() == metadata.deep_view(),
        read.protocol.deep_view() == protocol.deep_view(),
        read.deep_view().file_stats_state is Complete,
        read.deep_view().file_stats_state->Complete_0.num_files == value.num_files,
        read.deep_view().file_stats_state->Complete_0.table_size_bytes == value.table_size_bytes,
        match (
            read.deep_view().file_stats_state->Complete_0.file_size_histogram,
            value.file_size_histogram,
        ) {
            (None, None) => true,
            (Some(h), Some(given)) => {
                &&& addresses(given.sorted_bin_boundaries.ptr, given.sorted_bin_boundaries.len)
                &&& h.sorted_bin_boundaries.len() == given.sorted_bin_boundaries.len
                &&& forall|i: int|
                    0 <= i < h.sorted_bin_boundaries.len() ==> (
                    #[trigger] h.sorted_bin_boundaries[i])
                        == given.sorted_bin_boundaries.ptr->0@[i]
                &&& h.file_counts.len() == given.file_counts.len
                &&& forall|i: int|
                    0 <= i < h.file_counts.len() ==> (#[trigger] h.file_counts[i])
                        == given.file_counts.ptr->0@[i]
                &&& h.total_bytes.len() == given.total_bytes.len
                &&& forall|i: int|
                    0 <= i < h.total_bytes.len() ==> (#[trigger] h.total_bytes[i])
                        == given.total_bytes.ptr->0@[i]
            },
            _ => false,
        },
        same_optional(read.in_commit_timestamp_opt, value.in_commit_timestamp),
        read.all_files is None,
        read.set_transaction_state is Complete <==> value.has_set_transactions,
        value.has_set_transactions ==> addresses(
            value.set_transactions.ptr,
            value.set_transactions.len,
        ) && forall|i: int|
            0 <= i < value.set_transactions.len ==> {
                let given = #[trigger] value.set_transactions.ptr->0@[i];
                let entries = read.deep_view().set_transaction_state.entries();
                let key = vstd::utf8::decode_utf8(given.app_id.bytes@);
                &&& entries.contains_key(key)
                &&& entries[key].version == given.version
                &&& same_optional(entries[key].last_updated, given.last_updated)
            },
        read.domain_metadata_state is Complete <==> value.has_domain_metadata,
        value.has_domain_metadata ==> addresses(
            value.domain_metadata.ptr,
            value.domain_metadata.len,
        ) && forall|i: int|
            0 <= i < value.domain_metadata.len ==> {
                let given = #[trigger] value.domain_metadata.ptr->0@[i];
                let entries = read.deep_view().domain_metadata_state.entries();
                let key = vstd::utf8::decode_utf8(given.domain.bytes@);
                &&& !given.removed
                &&& entries.contains_key(key)
                &&& entries[key].configuration == vstd::utf8::decode_utf8(
                    given.configuration.bytes@,
                )
            },
{
    let parts = components::crc_parts(value, metadata.deep_view(), protocol.deep_view());
    if value.has_set_transactions {
        let array = value.set_transactions;
        let items = convert::elements(array.ptr, array.len);
        let list = components::set_transactions_value(value)->0;
        let pairs = crate::crc::state::keyed_transactions(list);
        assert(items.len() == array.len);
        assert forall|i: int| 0 <= i < array.len implies {
            let given = #[trigger] array.ptr->0@[i];
            let entries = read.deep_view().set_transaction_state.entries();
            let key = vstd::utf8::decode_utf8(given.app_id.bytes@);
            &&& entries.contains_key(key)
            &&& entries[key].version == given.version
            &&& same_optional(entries[key].last_updated, given.last_updated)
        } by {
            assert(items[i] == array.ptr->0@[i]);
            assert(list[i] == components::set_transaction_value(items[i]));
            assert(pairs[i] == (list[i].app_id, list[i]));
            string_map::lemma_pairs_map_value(pairs, i);
        }
    }
    if value.has_domain_metadata {
        let array = value.domain_metadata;
        let items = convert::elements(array.ptr, array.len);
        let list = components::domains_value(value)->0;
        let pairs = crate::crc::state::keyed_domains(list);
        assert(items.len() == array.len);
        assert forall|i: int| 0 <= i < array.len implies {
            let given = #[trigger] array.ptr->0@[i];
            let entries = read.deep_view().domain_metadata_state.entries();
            let key = vstd::utf8::decode_utf8(given.domain.bytes@);
            &&& !given.removed
            &&& entries.contains_key(key)
            &&& entries[key].configuration == vstd::utf8::decode_utf8(given.configuration.bytes@)
        } by {
            assert(items[i] == array.ptr->0@[i]);
            assert(list[i] == components::domain_metadata_value(items[i]));
            assert(!list[i].removed);
            assert(pairs[i] == (list[i].domain, list[i]));
            string_map::lemma_pairs_map_value(pairs, i);
        }
    }
}

/// A hint that is begun has the version and the freshness claim, and nothing else.
pub proof fn law_begun_hint(version: u64, version_status: SnapshotHintVersionStatus)
    ensures
        visitor::begun(version, version_status) matches FfiSnapshotHintState::Building(state) && {
            &&& state.version == version
            &&& state.version_status == version_status
            &&& state.log_paths is None
            &&& state.protocol is None
            &&& state.metadata is None
            &&& state.last_checkpoint_hint is None
            &&& state.crc is None
        },
{
}

/// A protocol that is supplied to a hint is the protocol of the hint from then on, and nothing else
/// of the hint changes.
pub proof fn law_protocol_supplied(
    component: Result<Protocol, Error>,
    before: FfiSnapshotHintState,
    after: FfiSnapshotHintState,
    done: bool,
)
    requires
        visitor::supplied(
            component,
            before,
            visitor::with_protocol(),
            after,
            Ok::<bool, Error>(done),
        ),
    ensures
        done,
        component is Ok,
        before matches FfiSnapshotHintState::Building(old_state)
            && after matches FfiSnapshotHintState::Building(new_state) && {
            &&& new_state.protocol == Some(component->Ok_0)
            &&& new_state.version == old_state.version
            &&& new_state.version_status == old_state.version_status
            &&& new_state.log_paths == old_state.log_paths
            &&& new_state.metadata == old_state.metadata
            &&& new_state.last_checkpoint_hint == old_state.last_checkpoint_hint
            &&& new_state.crc == old_state.crc
        },
{
}

/// Metadata that is supplied to a hint is the metadata of the hint from then on, and nothing else
/// of the hint changes.
pub proof fn law_metadata_supplied(
    component: Result<Metadata, Error>,
    before: FfiSnapshotHintState,
    after: FfiSnapshotHintState,
    done: bool,
)
    requires
        visitor::supplied(
            component,
            before,
            visitor::with_metadata(),
            after,
            Ok::<bool, Error>(done),
        ),
    ensures
        done,
        component is Ok,
        before matches FfiSnapshotHintState::Building(old_state)
            && after matches FfiSnapshotHintState::Building(new_state) && {
            &&& new_state.metadata == Some(component->Ok_0)
            &&& new_state.version == old_state.version
            &&& new_state.version_status == old_state.version_status
            &&& new_state.log_paths == old_state.log_paths
            &&& new_state.protocol == old_state.protocol
            &&& new_state.last_checkpoint_hint == old_state.last_checkpoint_hint
            &&& new_state.crc == old_state.crc
        },
{
}

/// Checkpoint contents that are supplied to a hint are those of the hint from then on, and nothing
/// else of the hint changes.
pub proof fn law_last_checkpoint_supplied(
    component: Result<LastCheckpointHint, Error>,
    before: FfiSnapshotHintState,
    after: FfiSnapshotHintState,
    done: bool,
)
    requires
        visitor::supplied(
            component,
            before,
            visitor::with_last_checkpoint(),
            after,
            Ok::<bool, Error>(done),
        ),
    ensures
        done,
        component is Ok,
        before matches FfiSnapshotHintState::Building(old_state)
            && after matches FfiSnapshotHintState::Building(new_state) && {
            &&& new_state.last_checkpoint_hint == Some(component->Ok_0)
            &&& new_state.version == old_state.version
            &&& new_state.version_status == old_state.version_status
            &&& new_state.log_paths == old_state.log_paths
            &&& new_state.protocol == old_state.protocol
            &&& new_state.metadata == old_state.metadata
            &&& new_state.crc == old_state.crc
        },
{
}

/// Log paths that are supplied to a hint are those of the hint from then on, and nothing else of
/// the hint changes.
pub proof fn law_log_paths_supplied(
    log_paths: Result<Vec<LogPath>, Error>,
    before: FfiSnapshotHintState,
    after: FfiSnapshotHintState,
    done: bool,
)
    requires
        visitor::paths_supplied(log_paths, before, after, Ok::<bool, Error>(done)),
    ensures
        done,
        log_paths is Ok,
        before matches FfiSnapshotHintState::Building(old_state)
            && after matches FfiSnapshotHintState::Building(new_state) && {
            &&& new_state.log_paths == Some(log_paths->Ok_0)
            &&& new_state.version == old_state.version
            &&& new_state.version_status == old_state.version_status
            &&& new_state.protocol == old_state.protocol
            &&& new_state.metadata == old_state.metadata
            &&& new_state.last_checkpoint_hint == old_state.last_checkpoint_hint
            &&& new_state.crc == old_state.crc
        },
{
}

/// A checksum state that is supplied to a hint is that of the hint from then on: of the version,
/// metadata and protocol of the hint, consistent, with the statistics that were passed. Nothing
/// else of the hint changes.
pub proof fn law_crc_supplied(
    value: FfiSnapshotHintCrc,
    before: SnapshotHintVisitorState,
    after: FfiSnapshotHintState,
    done: bool,
)
    requires
        visitor::crc_supplied(value, before, after, Ok::<bool, Error>(done)),
    ensures
        done,
        before.metadata is Some,
        before.protocol is Some,
        after matches FfiSnapshotHintState::Building(new_state) && {
            &&& new_state.version == before.version
            &&& new_state.version_status == before.version_status
            &&& new_state.log_paths == before.log_paths
            &&& new_state.protocol == before.protocol
            &&& new_state.metadata == before.metadata
            &&& new_state.last_checkpoint_hint == before.last_checkpoint_hint
            &&& new_state.crc matches Some(crc) && {
                &&& crc.deep_view().valid()
                &&& crc.version == before.version
                &&& crc.metadata.deep_view() == before.metadata->0.deep_view()
                &&& crc.protocol.deep_view() == before.protocol->0.deep_view()
                &&& crc.deep_view().file_stats_state is Complete
                &&& crc.deep_view().file_stats_state->Complete_0.num_files == value.num_files
                &&& crc.deep_view().file_stats_state->Complete_0.table_size_bytes
                    == value.table_size_bytes
                &&& same_optional(crc.in_commit_timestamp_opt, value.in_commit_timestamp)
            }
        },
{
    let component = choose|component: Result<Crc, Error>| #[trigger]
        components::crc_read(
            value,
            before.version,
            before.metadata->0.deep_view(),
            before.protocol->0.deep_view(),
            component,
        ) && match component {
            Err(e) => false,
            Ok(read) => after matches FfiSnapshotHintState::Building(next)
                && next.crc matches Some(shared) && *shared == read && next == (
            SnapshotHintVisitorState { crc: Some(shared), ..before }),
        };
    law_crc_read(
        value,
        before.version,
        before.metadata->0,
        before.protocol->0,
        component->Ok_0,
    );
}

/// A checksum state that is refused is an invalid hint and leaves the hint as it was.
pub proof fn law_refused_crc_is_an_invalid_hint(
    value: FfiSnapshotHintCrc,
    before: SnapshotHintVisitorState,
    after: FfiSnapshotHintState,
    e: Error,
)
    requires
        visitor::crc_supplied(value, before, after, Err::<bool, Error>(e)),
    ensures
        e.deep_view() is InvalidSnapshotHint,
        after == FfiSnapshotHintState::Building(before),
{
}

/// A hint that is finished holds every component that was supplied: the version and the freshness
/// claim, the protocol, the metadata, the checkpoint contents and the checksum state, and the log
/// files that the table format makes of the log paths.
pub proof fn law_finished_hint_holds_every_component<F: TableFormat>(
    format: &F,
    state: SnapshotHintVisitorState,
    hint: SnapshotHint,
    res: Result<bool, Error>,
)
    requires
        visitor::finishes(
            format,
            FfiSnapshotHintState::Building(state),
            FfiSnapshotHintState::Ready(hint),
            res,
        ),
    ensures
        res == Ok::<bool, Error>(true),
        hint.version == state.version,
        hint.version_status == state.version_status,
        Some(hint.protocol) == state.protocol,
        Some(hint.metadata) == state.metadata,
        hint.last_checkpoint_hint == state.last_checkpoint_hint,
        hint.crc == state.crc,
        state.log_paths is Some,
        call_ensures(
            F::sort_log_paths,
            (format, state.version, state.log_paths->0),
            Ok::<LogSegmentFiles, Error>(hint.log_segment_files),
        ),
{
    let made = choose|made: Result<SnapshotHint, Error>| #[trigger]
        visitor::hint_completed(format, state, made) && match made {
            Ok(made) => res == Ok::<bool, Error>(true) && hint == made,
            Err(e) => false,
        };
    let files = choose|files: Result<LogSegmentFiles, Error>| #[trigger]
        call_ensures(F::sort_log_paths, (format, state.version, state.log_paths->0), files)
            && visitor::finished(state, files, made);
    assert(files == Ok::<LogSegmentFiles, Error>(hint.log_segment_files));
}

/// A hint is finished unless log paths, protocol or metadata are missing, or the table format
/// refuses the log paths; whatever comes of it, components are no longer supplied to it.
pub proof fn law_finish_refused_for_a_reason<F: TableFormat>(
    format: &F,
    state: SnapshotHintVisitorState,
    after: FfiSnapshotHintState,
    e: Error,
)
    requires
        visitor::finishes(
            format,
            FfiSnapshotHintState::Building(state),
            after,
            Err::<bool, Error>(e),
        ),
    ensures
        after is Absent,
        ({
            ||| (state.log_paths is None || state.protocol is None || state.metadata is None)
                && e.deep_view() is InvalidSnapshotHint
            ||| state.log_paths is Some && call_ensures(
                F::sort_log_paths,
                (format, state.version, state.log_paths->0),
                Err::<LogSegmentFiles, Error>(e),
            )
        }),
{
}

/// Whether the bytes of a string are UTF-8.
pub open spec fn is_text(value: KernelStringSlice) -> bool {
    vstd::utf8::valid_utf8(value.bytes@)
}

/// Whether the bytes of a string are UTF-8, where it is present.
pub open spec fn is_optional_text(value: FfiOptionalString) -> bool {
    value.has_value ==> is_text(value.value)
}

/// Whether an array of strings addresses as many as its length says, all of them UTF-8.
pub open spec fn is_text_list(value: FfiStringArray) -> bool {
    addresses(value.ptr, value.len) && forall|i: int|
        0 <= i < value.len ==> is_text(#[trigger] value.ptr->0@[i])
}

/// Whether an array of strings is usable, where it is present.
pub open spec fn is_optional_text_list(value: FfiOptionalStringArray) -> bool {
    value.has_value ==> is_text_list(value.value)
}

/// Whether a map addresses as many entries as its length says, all of them UTF-8.
pub open spec fn is_text_map(value: FfiStringMap) -> bool {
    addresses(value.ptr, value.len) && forall|i: int|
        0 <= i < value.len ==> is_text((#[trigger] value.ptr->0@[i]).key) && is_text(
            value.ptr->0@[i].value,
        )
}

/// Whether a map is usable, where it is present.
pub open spec fn is_optional_text_map(value: FfiOptionalStringMap) -> bool {
    value.has_value ==> is_text_map(value.value)
}

proof fn lemma_text_list(value: FfiStringArray)
    ensures
        convert::strings_error(value) is None <==> is_text_list(value),
{
    let items = convert::elements(value.ptr, value.len);
    let errors = convert::string_errors(items);
    first::lemma_first(errors);
    if addresses(value.ptr, value.len) {
        assert(items.len() == value.len);
        assert forall|i: int| 0 <= i < value.len implies errors[i] == convert::string_error(
            #[trigger] value.ptr->0@[i],
        ) by {
            assert(items[i] == value.ptr->0@[i]);
        }
        if is_text_list(value) {
            assert forall|i: int| 0 <= i < errors.len() implies (#[trigger] errors[i]) is None by {
                assert(is_text(value.ptr->0@[i]));
            }
        } else {
            let i = choose|i: int| 0 <= i < value.len && !is_text(#[trigger] value.ptr->0@[i]);
            assert(errors[i] is Some);
        }
    }
}

proof fn lemma_text_map(value: FfiStringMap)
    ensures
        convert::string_map_error(value) is None <==> is_text_map(value),
{
    let items = convert::elements(value.ptr, value.len);
    let errors = convert::entry_errors(items);
    first::lemma_first(errors);
    if addresses(value.ptr, value.len) {
        assert(items.len() == value.len);
        assert forall|i: int| 0 <= i < value.len implies errors[i] == convert::either(
            convert::string_error((#[trigger] value.ptr->0@[i]).key),
            convert::string_error(value.ptr->0@[i].value),
        ) by {
            assert(items[i] == value.ptr->0@[i]);
        }
        if is_text_map(value) {
            assert forall|i: int| 0 <= i < errors.len() implies (#[trigger] errors[i]) is None by {
                assert(is_text(value.ptr->0@[i].key));
            }
        } else {
            let i = choose|i: int|
                0 <= i < value.len && !(is_text((#[trigger] value.ptr->0@[i]).key) && is_text(
                    value.ptr->0@[i].value,
                ));
            assert(errors[i] is Some);
        }
    }
}

/// Components are refused for their fields only where a string is not UTF-8 or a pointer does not
/// address as many elements as its length says.
pub proof fn law_components_refused_for_a_reason(
    protocol: FfiSnapshotHintProtocol,
    metadata: FfiSnapshotHintMetadata,
    checkpoint_metadata: FfiSnapshotHintCheckpointMetadata,
    sidecar: FfiSnapshotHintSidecar,
    last_checkpoint: FfiSnapshotHintLastCheckpoint,
)
    ensures
        components::protocol_error(protocol) is None <==> {
            &&& is_optional_text_list(protocol.reader_features)
            &&& is_optional_text_list(protocol.writer_features)
        },
        components::metadata_error(metadata) is None <==> {
            &&& is_text(metadata.id)
            &&& is_optional_text(metadata.name)
            &&& is_optional_text(metadata.description)
            &&& is_text(metadata.format_provider)
            &&& is_text_map(metadata.format_options)
            &&& is_text(metadata.schema_string)
            &&& is_text_list(metadata.partition_columns)
            &&& is_text_map(metadata.configuration)
        },
        components::checkpoint_metadata_error(checkpoint_metadata) is None <==> {
            is_optional_text_map(checkpoint_metadata.tags)
        },
        components::sidecar_error(sidecar) is None <==> {
            &&& is_text(sidecar.path)
            &&& is_optional_text_map(sidecar.tags)
        },
        components::last_checkpoint_error(last_checkpoint) is None <==> {
            &&& last_checkpoint.parts.has_value ==> last_checkpoint.parts.value <= usize::MAX
            &&& is_optional_text(last_checkpoint.checksum)
            &&& is_optional_text_map(last_checkpoint.tags)
        },
{
    lemma_text_list(protocol.reader_features.value);
    lemma_text_list(protocol.writer_features.value);
    lemma_text_map(metadata.format_options);
    lemma_text_list(metadata.partition_columns);
    lemma_text_map(metadata.configuration);
    lemma_text_map(checkpoint_metadata.tags.value);
    lemma_text_map(sidecar.tags.value);
    lemma_text_map(last_checkpoint.tags.value);
}

/// Whether a list of sidecars addresses as many as its length says and each is usable.
pub open spec fn are_sidecars(value: FfiSnapshotHintV2Checkpoint) -> bool {
    value.has_sidecar_files ==> addresses(value.sidecar_files.ptr, value.sidecar_files.len)
        && forall|i: int|
        0 <= i < value.sidecar_files.len ==> is_text((#[trigger] value.sidecar_files.ptr->0@[i]).path)
            && is_optional_text_map(value.sidecar_files.ptr->0@[i].tags)
}

/// The sidecars of a checkpoint are refused only where one of them is not usable, or the pointer
/// does not address as many as its length says.
pub proof fn law_sidecars_refused_for_a_reason(value: FfiSnapshotHintV2Checkpoint)
    ensures
        components::sidecars_error(value) is None <==> are_sidecars(value),
{
    let files = value.sidecar_files;
    let items = convert::elements(files.ptr, files.len);
    let errors = components::sidecar_errors(items);
    first::lemma_first(errors);
    if value.has_sidecar_files && addresses(files.ptr, files.len) {
        assert(items.len() == files.len);
        assert forall|i: int| 0 <= i < files.len implies (errors[i] is None <==> is_text(
            (#[trigger] files.ptr->0@[i]).path,
        ) && is_optional_text_map(files.ptr->0@[i].tags)) by {
            assert(items[i] == files.ptr->0@[i]);
            lemma_text_map(items[i].tags.value);
        }
        if are_sidecars(value) {
            assert forall|i: int| 0 <= i < errors.len() implies (#[trigger] errors[i]) is None by {
                assert(is_text(files.ptr->0@[i].path));
            }
        } else {
            let i = choose|i: int|
                0 <= i < files.len && !(is_text((#[trigger] files.ptr->0@[i]).path)
                    && is_optional_text_map(files.ptr->0@[i].tags));
            assert(errors[i] is Some);
        }
    }
}

/// The fields of a checksum state are refused only where a pointer does not address as many
/// elements as its length says, the bins of the histogram are not usable, or a string of a
/// transaction or a domain is not UTF-8.
pub proof fn law_crc_fields_refused_for_a_reason(value: FfiSnapshotHintCrc)
    ensures
        components::crc_error(value) is None <==> {
            &&& value.file_size_histogram matches Some(h) ==> {
                &&& addresses(h.sorted_bin_boundaries.ptr, h.sorted_bin_boundaries.len)
                &&& addresses(h.file_counts.ptr, h.file_counts.len)
                &&& addresses(h.total_bytes.ptr, h.total_bytes.len)
                &&& components::histogram_value(h).well_formed()
            }
            &&& value.has_set_transactions ==> addresses(
                value.set_transactions.ptr,
                value.set_transactions.len,
            ) && forall|i: int|
                0 <= i < value.set_transactions.len ==> is_text(
                    (#[trigger] value.set_transactions.ptr->0@[i]).app_id,
                )
            &&& value.has_domain_metadata ==> addresses(
                value.domain_metadata.ptr,
                value.domain_metadata.len,
            ) && forall|i: int|
                0 <= i < value.domain_metadata.len ==> is_text(
                    (#[trigger] value.domain_metadata.ptr->0@[i]).domain,
                ) && is_text(value.domain_metadata.ptr->0@[i].configuration)
        },
{
    if value.has_set_transactions {
        let array = value.set_transactions;
        let items = convert::elements(array.ptr, array.len);
        let errors = components::set_transaction_errors(items);
        first::lemma_first(errors);
        if addresses(array.ptr, array.len) {
            assert(items.len() == array.len);
            assert forall|i: int| 0 <= i < array.len implies (errors[i] is None <==> is_text(
                (#[trigger] array.ptr->0@[i]).app_id,
            )) by {
                assert(items[i] == array.ptr->0@[i]);
            }
            assert forall|i: int| 0 <= i < errors.len() implies ((#[trigger] errors[i]) is None
                <==> is_text(array.ptr->0@[i].app_id)) by {}
        }
    }
    if value.has_domain_metadata {
        let array = value.domain_metadata;
        let items = convert::elements(array.ptr, array.len);
        let errors = components::domain_errors(items);
        first::lemma_first(errors);
        if addresses(array.ptr, array.len) {
            assert(items.len() == array.len);
            assert forall|i: int| 0 <= i < array.len implies (errors[i] is None <==> is_text(
                (#[trigger] array.ptr->0@[i]).domain,
            ) && is_text(array.ptr->0@[i].configuration)) by {
                assert(items[i] == array.ptr->0@[i]);
            }
            assert forall|i: int| 0 <= i < errors.len() implies ((#[trigger] errors[i]) is None
                <==> is_text(array.ptr->0@[i].domain) && is_text(
                array.ptr->0@[i].configuration,
            )) by {}
        }
    }
}

/// A component that can be read but comes before a hint was begun, or after it was finished, is an
/// invalid hint.
pub proof fn law_component_needs_a_begun_hint<T>(
    value: T,
    before: FfiSnapshotHintState,
    next: spec_fn(SnapshotHintVisitorState, T) -> SnapshotHintVisitorState,
    after: FfiSnapshotHintState,
    res: Result<bool, Error>,
)
    requires
        visitor::supplied(Ok::<T, Error>(value), before, next, after, res),
    ensures
        res is Ok <==> before is Building,
        res is Err ==> res->Err_0.deep_view() is InvalidSnapshotHint,
{
}

/// A component that cannot be read is reported with its own error.
pub proof fn law_component_error_is_kept<T>(
    e: Error,
    before: FfiSnapshotHintState,
    next: spec_fn(SnapshotHintVisitorState, T) -> SnapshotHintVisitorState,
    after: FfiSnapshotHintState,
    res: Result<bool, Error>,
)
    requires
        visitor::supplied(Err::<T, Error>(e), before, next, after, res),
    ensures
        res == Err::<bool, Error>(e),
        after == before,
{
}

/// Of the components that a hint cannot be finished without, the first that is missing is
/// reported: the log paths, the protocol, and the metadata.
pub proof fn law_reported_missing_component<F: TableFormat>(
    format: &F,
    state: SnapshotHintVisitorState,
    after: FfiSnapshotHintState,
    e: Error,
)
    requires
        visitor::finishes(
            format,
            FfiSnapshotHintState::Building(state),
            after,
            Err::<bool, Error>(e),
        ),
    ensures
        state.log_paths is None ==> e.deep_view() == ErrorView::InvalidSnapshotHint(
            "snapshot hint log paths were not supplied"@,
        ),
        state.log_paths is Some && state.protocol is None ==> e.deep_view()
            == ErrorView::InvalidSnapshotHint("snapshot hint protocol was not supplied"@),
        state.log_paths is Some && state.protocol is Some && state.metadata is None
            ==> e.deep_view() == ErrorView::InvalidSnapshotHint(
            "snapshot hint metadata was not supplied"@,
        ),
{
}

/// A checksum state that comes before the metadata or the protocol is refused, the metadata being
/// asked for first.
pub proof fn law_reported_early_crc(
    value: FfiSnapshotHintCrc,
    before: SnapshotHintVisitorState,
    after: FfiSnapshotHintState,
    res: Result<bool, Error>,
)
    requires
        visitor::crc_supplied(value, before, after, res),
    ensures
        before.metadata is None ==> error::fails(
            res,
            ErrorView::InvalidSnapshotHint("snapshot hint metadata must be supplied before CRC"@),
        ),
        before.metadata is Some && before.protocol is None ==> error::fails(
            res,
            ErrorView::InvalidSnapshotHint("snapshot hint protocol must be supplied before CRC"@),
        ),
{
}

/// An array that says how long it is but cannot be read that far is reported by its name and its
/// length, and every other one can be read.
pub proof fn law_reported_array<T>(ptr: Option<Vec<T>>, len: usize, name: Seq<char>)
    ensures
        convert::array_error(ptr, len, name) is None <==> addresses(ptr, len),
        len > 0 && ptr is None ==> convert::array_error(ptr, len, name) == Some(
            ErrorView::InvalidSnapshotHint(
                name + " pointer is null with length "@ + text::int_text(len as int),
            ),
        ),
        len > 0 && ptr is Some && ptr->0@.len() < len ==> convert::array_error(ptr, len, name)
            == Some(
            ErrorView::InvalidSnapshotHint(
                name + " pointer addresses fewer elements than length "@ + text::int_text(
                    len as int,
                ),
            ),
        ),
{
}

/// Of two errors the earlier is reported, and of a list of them the one with nothing before it.
pub proof fn law_earliest_error(
    a: Option<ErrorView>,
    b: Option<ErrorView>,
    errors: Seq<Option<ErrorView>>,
    i: int,
)
    ensures
        a is Some ==> convert::either(a, b) == a,
        a is None ==> convert::either(a, b) == b,
        0 <= i < errors.len() && errors[i] is Some && (forall|j: int|
            0 <= j < i ==> (#[trigger] errors[j]) is None) ==> first::first(errors) == errors[i],
        (forall|j: int| 0 <= j < errors.len() ==> (#[trigger] errors[j]) is None)
            ==> first::first(errors) is None,
{
    first::lemma_first(errors);
    if 0 <= i < errors.len() && errors[i] is Some && (forall|j: int|
        0 <= j < i ==> (#[trigger] errors[j]) is None) {
        let k = choose|k: int|
            0 <= k < errors.len() && (#[trigger] errors[k]) == first::first(errors) && forall|
                j: int,
            |
                0 <= j < k ==> (#[trigger] errors[j]) is None;
        assert(errors[k] == first::first(errors));
        if k < i {
            assert(errors[k] is None);
        } else if i < k {
            assert(errors[i] is None);
        }
    }
}

/// What a caller of the interface did wrong is named: an unknown action kind or version status, a
/// payload that is not there, a checkpoint part count that is too large, a component before the
/// hint is begun, and a build before it is finished.
pub proof fn law_reported_misuse(kind: u32, name: Seq<char>, parts: FfiOptionalU64)
    ensures
        components::unknown_kind(kind) == ErrorView::InvalidSnapshotHint(
            "unknown snapshot hint action kind: "@ + text::int_text(kind as int),
        ),
        convert::unknown_status(kind) == ErrorView::InvalidSnapshotHint(
            "unknown snapshot hint version status: "@ + text::int_text(kind as int),
        ),
        convert::null_value(name) == ErrorView::InvalidSnapshotHint(
            "snapshot hint "@ + name + " value is null"@,
        ),
        parts.has_value && parts.value > usize::MAX ==> convert::optional_usize_error(parts)
            == Some(
            ErrorView::InvalidSnapshotHint(
                "checkpoint part count overflows usize: "@ + text::int_text(parts.value as int),
            ),
        ),
        !(parts.has_value && parts.value > usize::MAX) ==> convert::optional_usize_error(
            parts,
        ) is None,
        visitor::not_started() == ErrorView::InvalidSnapshotHint(
            "snapshot hint visitor has not been started"@,
        ),
        visitor::unfinished() == ErrorView::InvalidSnapshotHint(
            "snapshot hint visitor is unfinished"@,
        ),
{
}

/// A value is read exactly where nothing is wrong with its fields, and what is wrong is its error.
pub proof fn law_read_exactly<T: DeepView>(
    error: Option<ErrorView>,
    value: T::V,
    res: Result<T, Error>,
)
    requires
        convert::reads(error, value, res),
    ensures
        error is None ==> res is Ok && res->Ok_0.deep_view() == value,
        error matches Some(e) ==> error::fails(res, e),
{
}

/// An action of a known kind whose payload is there and is text throughout is read. Of a protocol
/// action the table format has the last word.
pub proof fn law_usable_action_is_read<F: TableFormat>(
    format: &F,
    value: FfiSnapshotHintAction,
    res: Result<HintAction, Error>,
)
    requires
        components::action_read(format, value, res),
    ensures
        value.kind == 0 && (value.value.metadata matches Some(payload)
            && components::metadata_error(payload) is None) ==> res matches Ok(
            HintAction::Metadata(_),
        ),
        value.kind == 1 && value.value.protocol is Some ==> match res {
            Ok(read) => read is Protocol && components::protocol_read(
                format,
                value.value.protocol->0,
                Ok::<Protocol, Error>(read->Protocol_0),
            ),
            Err(e) => components::protocol_read(
                format,
                value.value.protocol->0,
                Err::<Protocol, Error>(e),
            ),
        },
        value.kind == 2 && (value.value.transaction matches Some(payload) && is_text(
            payload.app_id,
        )) ==> res matches Ok(HintAction::Txn(_)),
        value.kind == 3 && (value.value.domain_metadata matches Some(payload) && is_text(
            payload.domain,
        ) && is_text(payload.configuration)) ==> res matches Ok(HintAction::DomainMetadata(_)),
        value.kind == 4 && (value.value.checkpoint_metadata matches Some(payload)
            && is_optional_text_map(payload.tags)) ==> res matches Ok(
            HintAction::CheckpointMetadata(_),
        ),
{
    if let Some(payload) = value.value.checkpoint_metadata {
        lemma_text_map(payload.tags.value);
    }
}

/// A protocol is refused for its own fields, or by the table format, which is shown the protocol as
/// it was read.
pub proof fn law_protocol_refused_for_a_reason<F: TableFormat>(
    format: &F,
    value: FfiSnapshotHintProtocol,
    e: Error,
)
    requires
        components::protocol_read(format, value, Err::<Protocol, Error>(e)),
    ensures
        ({
            ||| !(is_optional_text_list(value.reader_features) && is_optional_text_list(
                value.writer_features,
            ))
            ||| exists|read: Protocol|
                read.min_reader_version == value.min_reader_version && read.min_writer_version
                    == value.min_writer_version && decodes_optional_list(
                    read.reader_features,
                    value.reader_features,
                ) && decodes_optional_list(read.writer_features, value.writer_features)
                    && #[trigger] call_ensures(
                    F::check_protocol,
                    (format, &read),
                    Err::<(), Error>(e),
                )
        }),
{
    lemma_text_list(value.reader_features.value);
    lemma_text_list(value.writer_features.value);
    if components::protocol_error(value) is None {
        let (read, answer) = choose|read: Protocol, answer: Result<(), Error>|
            read.deep_view() == components::protocol_value(value) && #[trigger] call_ensures(
                F::check_protocol,
                (format, &read),
                answer,
            ) && error::accepted(read, answer, Err::<Protocol, Error>(e));
        assert(call_ensures(F::check_protocol, (format, &read), Err::<(), Error>(e)));
        lemma_optional_strings(value.reader_features, read.reader_features);
        lemma_optional_strings(value.writer_features, read.writer_features);
    }
}

/// The pointer to the last checkpoint is refused for its own fields, for those of its version-two
/// checkpoint, or by the table format.
pub proof fn law_last_checkpoint_refused_for_a_reason<F: TableFormat>(
    format: &F,
    value: FfiSnapshotHintLastCheckpoint,
    e: Error,
)
    requires
        components::last_checkpoint_read(format, value, Err::<LastCheckpointHint, Error>(e)),
    ensures
        ({
            ||| !is_optional_text(value.checkpoint_schema)
            ||| value.v2_checkpoint is Some && components::v2_checkpoint_read(
                format,
                value.v2_checkpoint->0,
                Err::<LastCheckpointV2, Error>(e),
            )
            ||| value.parts.has_value && value.parts.value > usize::MAX
            ||| !is_optional_text(value.checksum)
            ||| !is_optional_text_map(value.tags)
            ||| exists|read: LastCheckpointHint|
                read.version == value.version && read.size == value.size && #[trigger] call_ensures(
                    F::check_last_checkpoint,
                    (format, &read),
                    Err::<(), Error>(e),
                )
        }),
{
    let failed = Err::<LastCheckpointHint, Error>(e);
    lemma_text_map(value.tags.value);
    if is_optional_text(value.checkpoint_schema) {
        let v2 = choose|v2: Result<Option<LastCheckpointV2>, Error>| #[trigger]
            components::optional_v2_checkpoint_read(format, value.v2_checkpoint, v2)
                && components::last_checkpoint_rest(format, value, v2, failed);
        if v2 is Ok && components::last_checkpoint_error(value) is None {
            let (read, answer) = choose|read: LastCheckpointHint, answer: Result<(), Error>|
                read.deep_view() == components::last_checkpoint_value(value, v2->Ok_0)
                    && #[trigger] call_ensures(
                    F::check_last_checkpoint,
                    (format, &read),
                    answer,
                ) && error::accepted(read, answer, failed);
            assert(call_ensures(F::check_last_checkpoint, (format, &read), Err::<(), Error>(e)));
        }
    }
}

} // verus!
