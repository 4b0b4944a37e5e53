//! What is kept when a checksum state is written and read, said field by field.

use vstd::prelude::*;

use crate::actions::{
    Add, DeletionVectorDescriptor, DeletionVectorStorageType, DomainMetadata, Metadata, Protocol,
    SetTransaction,
};
use crate::crc::agreement;
use crate::crc::checksum::Crc;
use crate::crc::file_size_histogram::{FileSizeHistogram, FileSizeHistogramRaw};
use crate::crc::raw;
use crate::crc::raw::{
    CrcAddRaw, CrcAddRawView, CrcDeletionVectorRaw, CrcDeletionVectorRawView, CrcRaw, CrcRawView,
};
use crate::crc::state;
use crate::crc::state::{DomainMetadataState, FileStatsState, SetTransactionState};
use crate::crc::sums;
use crate::error;
use crate::error::Error;
use crate::error::ErrorView;
use crate::snapshot::engine::TableFormat;
use crate::string_map;

verus! {

/// Whether a letter of the log names a storage type: `u` a relative file, `i` the action itself,
/// `p` an absolute file.
pub open spec fn letter_names(letter: Seq<char>, storage_type: DeletionVectorStorageType) -> bool {
    match storage_type {
        DeletionVectorStorageType::PersistedRelative => letter == "u"@,
        DeletionVectorStorageType::Inline => letter == "i"@,
        DeletionVectorStorageType::PersistedAbsolute => letter == "p"@,
    }
}

/// Whether the entries of a map are those of another whose value is not null.
pub open spec fn nulls_left_out(
    kept: Map<Seq<char>, Seq<char>>,
    given: Map<Seq<char>, Option<Seq<char>>>,
) -> bool {
    forall|k: Seq<char>|
        {
            &&& #[trigger] kept.contains_key(k) <==> given.contains_key(k) && given[k] is Some
            &&& kept.contains_key(k) ==> Some(kept[k]) == given[k]
        }
}

/// Whether a deletion vector and a persisted one have the same fields.
pub open spec fn vector_kept(
    written: Option<CrcDeletionVectorRaw>,
    dv: Option<DeletionVectorDescriptor>,
) -> bool {
    match (written, dv) {
        (None, None) => true,
        (Some(written), Some(dv)) => {
            &&& letter_names(written.storage_type@, dv.storage_type)
            &&& dv.path_or_inline_dv@ == written.path_or_inline_dv@
            &&& dv.offset == written.offset
            &&& dv.size_in_bytes == written.size_in_bytes
            &&& dv.cardinality == written.cardinality
        },
        _ => false,
    }
}

/// A deletion vector that is read has every field of its persisted shape, and the table format
/// accepted it.
pub proof fn law_read_deletion_vector_keeps_fields<F: TableFormat>(
    format: &F,
    raw: CrcDeletionVectorRaw,
    read: DeletionVectorDescriptor,
)
    requires
        raw::deletion_vector_read(
            format,
            raw.deep_view(),
            Ok::<DeletionVectorDescriptor, Error>(read),
        ),
    ensures
        letter_names(raw.storage_type@, read.storage_type),
        read.path_or_inline_dv@ == raw.path_or_inline_dv@,
        read.offset == raw.offset,
        read.size_in_bytes == raw.size_in_bytes,
        read.cardinality == raw.cardinality,
        call_ensures(F::check_deletion_vector, (format, &read), Ok::<(), Error>(())),
{
    let (given, answer) = choose|given: DeletionVectorDescriptor, answer: Result<(), Error>|
        given.deep_view() == raw.deep_view().deletion_vector() && #[trigger] call_ensures(
            F::check_deletion_vector,
            (format, &given),
            answer,
        ) && error::accepted(given, answer, Ok::<DeletionVectorDescriptor, Error>(read));
    if let Ok(unit) = answer {
        assert(unit == ());
    }
}

/// A deletion vector is refused only where no storage type has its letter, or where the table
/// format refuses it with this error.
pub proof fn law_deletion_vector_refused_for_a_reason<F: TableFormat>(
    format: &F,
    raw: CrcDeletionVectorRaw,
    e: Error,
)
    requires
        raw::deletion_vector_read(
            format,
            raw.deep_view(),
            Err::<DeletionVectorDescriptor, Error>(e),
        ),
    ensures
        ({
            ||| raw.storage_type@ != "u"@ && raw.storage_type@ != "i"@ && raw.storage_type@ != "p"@
                && e.deep_view() is Generic
            ||| exists|read: DeletionVectorDescriptor|
                {
                    &&& letter_names(raw.storage_type@, read.storage_type)
                    &&& read.path_or_inline_dv@ == raw.path_or_inline_dv@
                    &&& read.offset == raw.offset
                    &&& read.size_in_bytes == raw.size_in_bytes
                    &&& read.cardinality == raw.cardinality
                    &&& #[trigger] call_ensures(
                        F::check_deletion_vector,
                        (format, &read),
                        Err::<(), Error>(e),
                    )
                }
        }),
{
}

/// The persisted shape of a deletion vector has every field of it.
pub proof fn law_written_deletion_vector_keeps_fields(
    dv: DeletionVectorDescriptor,
    raw: CrcDeletionVectorRaw,
)
    requires
        raw.deep_view() == CrcDeletionVectorRawView::of(dv.deep_view()),
    ensures
        letter_names(raw.storage_type@, dv.storage_type),
        raw.path_or_inline_dv@ == dv.path_or_inline_dv@,
        raw.offset == dv.offset,
        raw.size_in_bytes == dv.size_in_bytes,
        raw.cardinality == dv.cardinality,
{
}

/// A data file that is read has every field of its persisted shape. Only partition values that are
/// null are left out.
pub proof fn law_read_file_keeps_fields<F: TableFormat>(format: &F, raw: CrcAddRaw, read: Add)
    requires
        raw::add_read(format, raw.deep_view(), Ok::<Add, Error>(read)),
    ensures
        read.path@ == raw.path@,
        read.size == raw.size,
        read.modification_time == raw.modification_time,
        read.data_change == raw.data_change,
        read.stats.deep_view() == raw.stats.deep_view(),
        read.tags.deep_view() == raw.tags.deep_view(),
        read.base_row_id == raw.base_row_id,
        read.default_row_commit_version == raw.default_row_commit_version,
        read.clustering_provider.deep_view() == raw.clustering_provider.deep_view(),
        nulls_left_out(read.partition_values.deep_view(), raw.partition_values.deep_view()),
        vector_kept(raw.deletion_vector, read.deletion_vector),
{
    if let Some(written) = raw.deletion_vector {
        law_read_deletion_vector_keeps_fields(format, written, read.deletion_vector->0);
    }
}

/// The persisted shape of a data file has every field of it, and no partition value is null.
pub proof fn law_written_file_keeps_fields(add: Add, raw: CrcAddRaw)
    requires
        raw.deep_view() == CrcAddRawView::of(add.deep_view()),
    ensures
        raw.path@ == add.path@,
        raw.size == add.size,
        raw.modification_time == add.modification_time,
        raw.data_change == add.data_change,
        raw.stats.deep_view() == add.stats.deep_view(),
        raw.tags.deep_view() == add.tags.deep_view(),
        raw.base_row_id == add.base_row_id,
        raw.default_row_commit_version == add.default_row_commit_version,
        raw.clustering_provider.deep_view() == add.clustering_provider.deep_view(),
        nulls_left_out(add.partition_values.deep_view(), raw.partition_values.deep_view()),
        forall|column: Seq<char>| #[trigger]
            raw.partition_values.deep_view().contains_key(column)
                <==> add.partition_values.deep_view().contains_key(column),
        vector_kept(raw.deletion_vector, add.deletion_vector),
{
    if let Some(dv) = add.deletion_vector {
        law_written_deletion_vector_keeps_fields(dv, raw.deletion_vector->0);
    }
}

/// A state that is read has every field of the file, with known statistics, the files in their
/// order, and the version of the file's name.
pub proof fn law_read_state_keeps_fields<F: TableFormat>(
    format: &F,
    raw: CrcRaw,
    version: u64,
    crc: Crc,
)
    requires
        raw::described_state(format, raw.deep_view(), version, Ok::<Crc, Error>(crc)),
    ensures
        raw.num_metadata == 1,
        raw.num_protocol == 1,
        raw.file_size_histogram matches Some(h) ==> !histogram_unreadable(h),
        crc.version == version,
        crc.metadata.deep_view() == raw.metadata.deep_view(),
        crc.protocol.deep_view() == raw.protocol.deep_view(),
        crc.file_stats_state matches FileStatsState::Complete(stats) && {
            &&& stats.num_files == raw.num_files
            &&& stats.table_size_bytes == raw.table_size_bytes
            &&& match (stats.file_size_histogram, raw.file_size_histogram) {
                (None, None) => true,
                (Some(h), Some(written)) => {
                    &&& h.deep_view().sorted_bin_boundaries == written.sorted_bin_boundaries@
                    &&& h.deep_view().file_counts == written.file_counts@
                    &&& h.deep_view().total_bytes == written.total_bytes@
                },
                _ => false,
            }
        },
        crc.in_commit_timestamp_opt == raw.in_commit_timestamp_opt,
        crc.txn_id.deep_view() == raw.txn_id.deep_view(),
        crc.num_deleted_records_opt == raw.num_deleted_records_opt,
        crc.num_deletion_vectors_opt == raw.num_deletion_vectors_opt,
        match (
            crc.deleted_record_counts_histogram_opt,
            raw.deleted_record_counts_histogram_opt,
        ) {
            (None, None) => true,
            (Some(h), Some(written)) => h.deleted_record_counts@ == written.deleted_record_counts@,
            _ => false,
        },
        match (crc.all_files, raw.all_files) {
            (None, None) => true,
            (Some(files), Some(written)) => {
                &&& files@.len() == written@.len()
                &&& forall|i: int|
                    0 <= i < files@.len() ==> {
                        &&& (#[trigger] files@[i]).path@ == written@[i].path@
                        &&& files@[i].size == written@[i].size
                        &&& files@[i].modification_time == written@[i].modification_time
                        &&& files@[i].data_change == written@[i].data_change
                        &&& files@[i].stats.deep_view() == written@[i].stats.deep_view()
                        &&& files@[i].tags.deep_view() == written@[i].tags.deep_view()
                        &&& files@[i].base_row_id == written@[i].base_row_id
                        &&& files@[i].default_row_commit_version
                            == written@[i].default_row_commit_version
                        &&& files@[i].clustering_provider.deep_view()
                            == written@[i].clustering_provider.deep_view()
                        &&& vector_kept(written@[i].deletion_vector, files@[i].deletion_vector)
                        &&& nulls_left_out(
                            files@[i].partition_values.deep_view(),
                            written@[i].partition_values.deep_view(),
                        )
                    }
            },
            _ => false,
        },
{
    let view = raw.deep_view();
    if let Some(h) = raw.file_size_histogram {
        let seen = h.deep_view();
        assert forall|i: int|
            0 <= i < h.file_counts@.len() && i < h.total_bytes@.len() implies !((
        #[trigger] h.file_counts@[i]) < 0 || h.total_bytes@[i] < 0) by {
            assert(!seen.negative_at(i));
        }
    }
    if let Some(written) = raw.all_files {
        let files = crc.all_files->0;
        raw::lemma_described_files_known(format, view, version, crc);
        assert(files.deep_view() == raw::adds(written.deep_view()));
        assert forall|i: int| 0 <= i < files@.len() implies files@[i].deep_view()
            == written@[i].deep_view().add() by {
            assert(files.deep_view()[i] == files@[i].deep_view());
            assert(written.deep_view()[i] == written@[i].deep_view());
            assert(raw::adds(written.deep_view())[i] == written.deep_view()[i].add());
        }
        assert(files.deep_view().len() == written.deep_view().len());
        assert forall|i: int| 0 <= i < files@.len() implies vector_kept(
            (#[trigger] written@[i]).deletion_vector,
            files@[i].deletion_vector,
        ) && nulls_left_out(
            files@[i].partition_values.deep_view(),
            written@[i].partition_values.deep_view(),
        ) by {
            assert(files@[i].deep_view() == written@[i].deep_view().add());
            assert(written.deep_view()[i].storage_known());
            assert(written.deep_view()[i] == written@[i].deep_view());
        }
    }
    if let Some(h) = crc.deleted_record_counts_histogram_opt {
        assert(Some(h.deep_view()) == view.deleted_record_counts_histogram_opt);
    }
}

/// Of the transactions of a state that is read: where the file lists them, they are complete, each
/// stands under its application id, and no other does; where it does not, nothing is known.
pub proof fn law_read_transactions<F: TableFormat>(
    format: &F,
    raw: CrcRaw,
    version: u64,
    crc: Crc,
)
    requires
        raw::described_state(format, raw.deep_view(), version, Ok::<Crc, Error>(crc)),
    ensures
        match (raw.set_transactions, crc.set_transaction_state) {
            (None, SetTransactionState::Partial(m)) => forall|k: Seq<char>|
                !#[trigger] m.deep_view().contains_key(k),
            (Some(list), SetTransactionState::Complete(m)) => {
                &&& forall|i: int|
                    0 <= i < list@.len() ==> m.deep_view().contains_key(
                        (#[trigger] list@[i]).app_id@,
                    ) && m.deep_view()[list@[i].app_id@] == list@[i].deep_view()
                &&& forall|k: Seq<char>| #[trigger]
                    m.deep_view().contains_key(k) ==> exists|i: int|
                        0 <= i < list@.len() && (#[trigger] list@[i]).app_id@ == k
                &&& forall|i: int, j: int|
                    0 <= i < j < list@.len() ==> (#[trigger] list@[i]).app_id@ != (
                    #[trigger] list@[j]).app_id@
            },
            _ => false,
        },
{
    if let Some(list) = raw.set_transactions {
        let m = crc.set_transaction_state->Complete_0;
        let pairs = state::keyed_transactions(list.deep_view());
        assert forall|i: int| 0 <= i < list@.len() implies #[trigger] pairs[i] == (
            list@[i].app_id@,
            list@[i].deep_view(),
        ) by {
            assert(list.deep_view()[i] == list@[i].deep_view());
        }
        assert forall|i: int| 0 <= i < list@.len() implies m.deep_view().contains_key(
            (#[trigger] list@[i]).app_id@,
        ) && m.deep_view()[list@[i].app_id@] == list@[i].deep_view() by {
            string_map::lemma_pairs_map_value(pairs, i);
            assert(pairs[i].0 == list@[i].app_id@);
        }
        assert forall|k: Seq<char>| #[trigger] m.deep_view().contains_key(k) implies exists|i: int|
            0 <= i < list@.len() && (#[trigger] list@[i]).app_id@ == k by {
            string_map::lemma_pairs_map_keys(pairs, k);
            let i = choose|i: int| 0 <= i < pairs.len() && (#[trigger] pairs[i]).0 == k;
            assert(list@[i].app_id@ == k);
        }
        assert forall|i: int, j: int| 0 <= i < j < list@.len() implies (
        #[trigger] list@[i]).app_id@ != (#[trigger] list@[j]).app_id@ by {
            assert(pairs[i].0 != pairs[j].0);
        }
    }
}

/// Of the domains of a state that is read: where the file lists them, they are complete, each
/// stands under its name, none is removed, and no other does; where it does not, nothing is known.
pub proof fn law_read_domains<F: TableFormat>(format: &F, raw: CrcRaw, version: u64, crc: Crc)
    requires
        raw::described_state(format, raw.deep_view(), version, Ok::<Crc, Error>(crc)),
    ensures
        match (raw.domain_metadata, crc.domain_metadata_state) {
            (None, DomainMetadataState::Partial(m)) => forall|k: Seq<char>|
                !#[trigger] m.deep_view().contains_key(k),
            (Some(list), DomainMetadataState::Complete(m)) => {
                &&& forall|i: int|
                    0 <= i < list@.len() ==> m.deep_view().contains_key(
                        (#[trigger] list@[i]).domain@,
                    ) && m.deep_view()[list@[i].domain@] == list@[i].deep_view()
                        && !list@[i].removed
                &&& forall|k: Seq<char>| #[trigger]
                    m.deep_view().contains_key(k) ==> exists|i: int|
                        0 <= i < list@.len() && (#[trigger] list@[i]).domain@ == k
                &&& forall|i: int, j: int|
                    0 <= i < j < list@.len() ==> (#[trigger] list@[i]).domain@ != (
                    #[trigger] list@[j]).domain@
            },
            _ => false,
        },
{
    if let Some(list) = raw.domain_metadata {
        let m = crc.domain_metadata_state->Complete_0;
        let pairs = state::keyed_domains(list.deep_view());
        assert forall|i: int| 0 <= i < list@.len() implies #[trigger] pairs[i] == (
            list@[i].domain@,
            list@[i].deep_view(),
        ) by {
            assert(list.deep_view()[i] == list@[i].deep_view());
        }
        assert forall|i: int| 0 <= i < list@.len() implies m.deep_view().contains_key(
            (#[trigger] list@[i]).domain@,
        ) && m.deep_view()[list@[i].domain@] == list@[i].deep_view() && !list@[i].removed by {
            string_map::lemma_pairs_map_value(pairs, i);
            assert(pairs[i].0 == list@[i].domain@);
            assert(!list.deep_view()[i].removed);
        }
        assert forall|k: Seq<char>| #[trigger] m.deep_view().contains_key(k) implies exists|i: int|
            0 <= i < list@.len() && (#[trigger] list@[i]).domain@ == k by {
            string_map::lemma_pairs_map_keys(pairs, k);
            let i = choose|i: int| 0 <= i < pairs.len() && (#[trigger] pairs[i]).0 == k;
            assert(list@[i].domain@ == k);
        }
        assert forall|i: int, j: int| 0 <= i < j < list@.len() implies (
        #[trigger] list@[i]).domain@ != (#[trigger] list@[j]).domain@ by {
            assert(pairs[i].0 != pairs[j].0);
        }
    }
}

/// The persisted shape of a state has every field of it. Of the transactions and the domains it
/// lists each once where they are complete, and none where they are not.
pub proof fn law_written_state_keeps_fields(crc: Crc, raw: CrcRaw)
    requires
        raw.deep_view().records(crc.deep_view()),
    ensures
        raw.num_metadata == 1,
        raw.num_protocol == 1,
        raw.metadata.deep_view() == crc.metadata.deep_view(),
        raw.protocol.deep_view() == crc.protocol.deep_view(),
        crc.file_stats_state matches FileStatsState::Complete(stats) && {
            &&& raw.num_files == stats.num_files
            &&& raw.table_size_bytes == stats.table_size_bytes
            &&& match (stats.file_size_histogram, raw.file_size_histogram) {
                (None, None) => true,
                (Some(h), Some(written)) => {
                    &&& written.sorted_bin_boundaries@ == h.deep_view().sorted_bin_boundaries
                    &&& written.file_counts@ == h.deep_view().file_counts
                    &&& written.total_bytes@ == h.deep_view().total_bytes
                },
                _ => false,
            }
        },
        raw.in_commit_timestamp_opt == crc.in_commit_timestamp_opt,
        raw.txn_id.deep_view() == crc.txn_id.deep_view(),
        raw.num_deleted_records_opt == crc.num_deleted_records_opt,
        raw.num_deletion_vectors_opt == crc.num_deletion_vectors_opt,
        match (
            crc.deleted_record_counts_histogram_opt,
            raw.deleted_record_counts_histogram_opt,
        ) {
            (None, None) => true,
            (Some(h), Some(written)) => written.deleted_record_counts@ == h.deleted_record_counts@,
            _ => false,
        },
        match (crc.all_files, raw.all_files) {
            (None, None) => true,
            (Some(files), Some(written)) => {
                &&& written@.len() == files@.len()
                &&& forall|i: int|
                    0 <= i < files@.len() ==> {
                        &&& (#[trigger] written@[i]).path@ == files@[i].path@
                        &&& written@[i].size == files@[i].size
                        &&& written@[i].modification_time == files@[i].modification_time
                        &&& written@[i].data_change == files@[i].data_change
                        &&& written@[i].stats.deep_view() == files@[i].stats.deep_view()
                        &&& written@[i].tags.deep_view() == files@[i].tags.deep_view()
                        &&& written@[i].base_row_id == files@[i].base_row_id
                        &&& written@[i].default_row_commit_version
                            == files@[i].default_row_commit_version
                        &&& written@[i].clustering_provider.deep_view()
                            == files@[i].clustering_provider.deep_view()
                        &&& vector_kept(written@[i].deletion_vector, files@[i].deletion_vector)
                        &&& nulls_left_out(
                            files@[i].partition_values.deep_view(),
                            written@[i].partition_values.deep_view(),
                        )
                    }
            },
            _ => false,
        },
        match (crc.set_transaction_state, raw.set_transactions) {
            (SetTransactionState::Partial(_), None) => true,
            (SetTransactionState::Complete(m), Some(list)) => {
                &&& forall|i: int|
                    0 <= i < list@.len() ==> m.deep_view().contains_key(
                        (#[trigger] list@[i]).app_id@,
                    ) && m.deep_view()[list@[i].app_id@] == list@[i].deep_view()
                &&& forall|k: Seq<char>| #[trigger]
                    m.deep_view().contains_key(k) ==> exists|i: int|
                        0 <= i < list@.len() && (#[trigger] list@[i]).app_id@ == k
                &&& forall|i: int, j: int|
                    0 <= i < j < list@.len() ==> (#[trigger] list@[i]).app_id@ != (
                    #[trigger] list@[j]).app_id@
            },
            _ => false,
        },
        match (crc.domain_metadata_state, raw.domain_metadata) {
            (DomainMetadataState::Partial(_), None) => true,
            (DomainMetadataState::Complete(m), Some(list)) => {
                &&& forall|i: int|
                    0 <= i < list@.len() ==> m.deep_view().contains_key(
                        (#[trigger] list@[i]).domain@,
                    ) && m.deep_view()[list@[i].domain@] == list@[i].deep_view()
                &&& forall|k: Seq<char>| #[trigger]
                    m.deep_view().contains_key(k) ==> exists|i: int|
                        0 <= i < list@.len() && (#[trigger] list@[i]).domain@ == k
                &&& forall|i: int, j: int|
                    0 <= i < j < list@.len() ==> (#[trigger] list@[i]).domain@ != (
                    #[trigger] list@[j]).domain@
            },
            _ => false,
        },
{
    let view = raw.deep_view();
    if let Some(files) = crc.all_files {
        let written = raw.all_files->0;
        assert(written.deep_view() == raw::raw_adds(files.deep_view()));
        assert(written.deep_view().len() == files.deep_view().len());
        assert forall|i: int| 0 <= i < files@.len() implies written@[i].deep_view()
            == CrcAddRawView::of(files@[i].deep_view()) by {
            assert(files.deep_view()[i] == files@[i].deep_view());
            assert(written.deep_view()[i] == written@[i].deep_view());
            assert(raw::raw_adds(files.deep_view())[i] == CrcAddRawView::of(files.deep_view()[i]));
        }
    }
    if let Some(h) = raw.deleted_record_counts_histogram_opt {
        assert(Some(h.deep_view()) == crc.deep_view().deleted_record_counts_histogram_opt);
    }
    if let Some(list) = raw.set_transactions {
        if let SetTransactionState::Complete(m) = crc.set_transaction_state {
            let pairs = state::keyed_transactions(list.deep_view());
            assert forall|i: int| 0 <= i < list@.len() implies #[trigger] pairs[i] == (
                list@[i].app_id@,
                list@[i].deep_view(),
            ) by {
                assert(list.deep_view()[i] == list@[i].deep_view());
            }
            assert forall|i: int| 0 <= i < list@.len() implies m.deep_view().contains_key(
                (#[trigger] list@[i]).app_id@,
            ) && m.deep_view()[list@[i].app_id@] == list@[i].deep_view() by {
                string_map::lemma_pairs_map_value(pairs, i);
                assert(pairs[i].0 == list@[i].app_id@);
            }
            assert forall|k: Seq<char>| #[trigger] m.deep_view().contains_key(k) implies exists|
                i: int,
            | 0 <= i < list@.len() && (#[trigger] list@[i]).app_id@ == k by {
                string_map::lemma_pairs_map_keys(pairs, k);
                let i = choose|i: int| 0 <= i < pairs.len() && (#[trigger] pairs[i]).0 == k;
                assert(list@[i].app_id@ == k);
            }
            assert forall|i: int, j: int| 0 <= i < j < list@.len() implies (
            #[trigger] list@[i]).app_id@ != (#[trigger] list@[j]).app_id@ by {
                assert(pairs[i].0 != pairs[j].0);
            }
        }
    }
    if let Some(list) = raw.domain_metadata {
        if let DomainMetadataState::Complete(m) = crc.domain_metadata_state {
            let pairs = state::keyed_domains(list.deep_view());
            assert forall|i: int| 0 <= i < list@.len() implies #[trigger] pairs[i] == (
                list@[i].domain@,
                list@[i].deep_view(),
            ) by {
                assert(list.deep_view()[i] == list@[i].deep_view());
            }
            assert forall|i: int| 0 <= i < list@.len() implies m.deep_view().contains_key(
                (#[trigger] list@[i]).domain@,
            ) && m.deep_view()[list@[i].domain@] == list@[i].deep_view() by {
                string_map::lemma_pairs_map_value(pairs, i);
                assert(pairs[i].0 == list@[i].domain@);
            }
            assert forall|k: Seq<char>| #[trigger] m.deep_view().contains_key(k) implies exists|
                i: int,
            | 0 <= i < list@.len() && (#[trigger] list@[i]).domain@ == k by {
                string_map::lemma_pairs_map_keys(pairs, k);
                let i = choose|i: int| 0 <= i < pairs.len() && (#[trigger] pairs[i]).0 == k;
                assert(list@[i].domain@ == k);
            }
            assert forall|i: int, j: int| 0 <= i < j < list@.len() implies (
            #[trigger] list@[i]).domain@ != (#[trigger] list@[j]).domain@ by {
                assert(pairs[i].0 != pairs[j].0);
            }
        }
    }
}

/// Whether a file-size histogram is one that cannot be read: a counter is negative, or the
/// boundaries are fewer than two, do not start at zero, do not ascend, or do not match the counters
/// in number.
pub open spec fn histogram_unreadable(h: FileSizeHistogramRaw) -> bool {
    ||| exists|i: int|
        0 <= i < h.file_counts@.len() && i < h.total_bytes@.len() && ((#[trigger] h.file_counts@[i])
            < 0 || h.total_bytes@[i] < 0)
    ||| h.sorted_bin_boundaries@.len() < 2
    ||| h.sorted_bin_boundaries@[0] != 0
    ||| h.file_counts@.len() != h.sorted_bin_boundaries@.len()
    ||| h.total_bytes@.len() != h.sorted_bin_boundaries@.len()
    ||| exists|i: int, j: int|
        0 <= i < j < h.sorted_bin_boundaries@.len() && (#[trigger] h.sorted_bin_boundaries@[i]) >= (
        #[trigger] h.sorted_bin_boundaries@[j])
}

/// Whether a file-size histogram does not add up to the statistics beside it.
pub open spec fn histogram_disagrees(
    h: FileSizeHistogramRaw,
    num_files: i64,
    table_size_bytes: i64,
) -> bool {
    ||| agreement::added_up(h.file_counts@) != num_files
    ||| agreement::added_up(h.total_bytes@) != table_size_bytes
    ||| exists|i: int|
        0 <= i <= h.file_counts@.len() && !(i64::MIN <= agreement::added_up(
            #[trigger] h.file_counts@.take(i),
        ) <= i64::MAX)
    ||| exists|i: int|
        0 <= i <= h.total_bytes@.len() && !(i64::MIN <= agreement::added_up(
            #[trigger] h.total_bytes@.take(i),
        ) <= i64::MAX)
}

/// A checksum file is refused only for a reason: a histogram that cannot be read or does not add
/// up, a number of metadata or protocol actions other than one, a negative statistic, an
/// application or a domain that is listed twice, a removed domain, a deletion vector that cannot be
/// read, a deleted-record histogram without ten ranges or with a negative one, or a state that is
/// not consistent. One that has none of these is read.
pub proof fn law_file_refused_for_a_reason<F: TableFormat>(
    format: &F,
    raw: CrcRaw,
    version: u64,
    res: Result<Crc, Error>,
)
    requires
        raw::described_state(format, raw.deep_view(), version, res),
    ensures
        res matches Err(e) ==> {
            ||| raw.file_size_histogram matches Some(h) && histogram_unreadable(h)
                && e.deep_view() is MalformedJson
            ||| raw.num_metadata != 1 && e.deep_view() is Generic
            ||| raw.num_protocol != 1 && e.deep_view() is Generic
            ||| raw.num_files < 0 && e.deep_view() is Generic
            ||| raw.table_size_bytes < 0 && e.deep_view() is Generic
            ||| raw.file_size_histogram matches Some(h) && histogram_disagrees(
                h,
                raw.num_files,
                raw.table_size_bytes,
            ) && e.deep_view() is Generic
            ||| e.deep_view() is Generic && (raw.set_transactions matches Some(list) && exists|
                i: int,
                j: int,
            |
                0 <= i < j < list@.len() && (#[trigger] list@[i]).app_id@ == (
                #[trigger] list@[j]).app_id@)
            ||| e.deep_view() is Generic && (raw.domain_metadata matches Some(list) && exists|
                i: int,
                j: int,
            |
                0 <= i < j < list@.len() && (#[trigger] list@[i]).domain@ == (
                #[trigger] list@[j]).domain@)
            ||| e.deep_view() is Generic && (raw.domain_metadata matches Some(list) && exists|
                i: int,
            |
                0 <= i < list@.len() && (#[trigger] list@[i]).removed)
            ||| raw.all_files matches Some(files) && exists|i: int|
                0 <= i < files@.len() && (#[trigger] files@[i]).deletion_vector is Some
                    && raw::deletion_vector_read(
                    format,
                    files@[i].deletion_vector->0.deep_view(),
                    Err::<DeletionVectorDescriptor, Error>(e),
                )
            ||| e.deep_view() is Generic && (raw.deleted_record_counts_histogram_opt matches Some(h)
                && (h.deleted_record_counts@.len() != 10 || exists|bin: int|
                0 <= bin < 10 && (#[trigger] h.deleted_record_counts@[bin]) < 0))
            ||| !raw.deep_view().crc(version).valid() && e.deep_view() is Generic
        },
{
    let view = raw.deep_view();
    if let Some(h) = raw.file_size_histogram {
        let seen = h.deep_view();
        if !histogram_unreadable(h) {
            assert forall|bin: int| 0 <= bin < seen.counted_bins() implies !#[trigger] seen.negative_at(
                bin,
            ) by {
                assert(h.file_counts@[bin] >= 0);
            }
            assert(seen.well_formed());
        }
        if !histogram_disagrees(h, raw.num_files, raw.table_size_bytes) {
            agreement::lemma_added_up(h.file_counts@);
            agreement::lemma_added_up(h.total_bytes@);
            assert forall|i: int| 0 <= i <= h.file_counts@.len() implies i64::MIN <= sums::sum(
                #[trigger] h.file_counts@.take(i),
            ) <= i64::MAX by {
                agreement::lemma_added_up(h.file_counts@.take(i));
            }
            assert forall|i: int| 0 <= i <= h.total_bytes@.len() implies i64::MIN <= sums::sum(
                #[trigger] h.total_bytes@.take(i),
            ) <= i64::MAX by {
                agreement::lemma_added_up(h.total_bytes@.take(i));
            }
        }
    }
    if let Some(list) = raw.set_transactions {
        let pairs = state::keyed_transactions(list.deep_view());
        if !string_map::keys_distinct(pairs) {
            let (i, j) = choose|i: int, j: int|
                0 <= i < j < pairs.len() && (#[trigger] pairs[i]).0 == (#[trigger] pairs[j]).0;
            assert(list.deep_view()[i] == list@[i].deep_view());
            assert(list.deep_view()[j] == list@[j].deep_view());
            assert(list@[i].app_id@ == list@[j].app_id@);
        }
    }
    if let Some(list) = raw.domain_metadata {
        let pairs = state::keyed_domains(list.deep_view());
        if !string_map::keys_distinct(pairs) {
            let (i, j) = choose|i: int, j: int|
                0 <= i < j < pairs.len() && (#[trigger] pairs[i]).0 == (#[trigger] pairs[j]).0;
            assert(list.deep_view()[i] == list@[i].deep_view());
            assert(list.deep_view()[j] == list@[j].deep_view());
            assert(list@[i].domain@ == list@[j].domain@);
        }
        if !state::all_live(list.deep_view()) {
            let i = choose|i: int|
                0 <= i < list.deep_view().len() && (#[trigger] list.deep_view()[i]).removed;
            assert(list@[i].removed);
        }
    }
    if view.fields_valid() && res is Err {
        let outcome = choose|files: Result<Option<Vec<Add>>, Error>| #[trigger]
            raw::all_files_read(format, view.all_files, files) && raw::files_state(
                view,
                version,
                files,
                res,
            );
        if let Err(e) = outcome {
            let files = raw.all_files->0;
            let shapes = files.deep_view();
            let (i, done) = choose|i: int, done: Seq<Add>| #[trigger]
                raw::add_fails(format, shapes, done, i, e);
            assert(shapes[i] == files@[i].deep_view());
            assert(files@[i].deletion_vector is Some);
        }
    }
}

/// A state that is made of known parts has every one of them; of the transactions and the domains,
/// those that are given are complete, and of those that are not nothing is known.
pub proof fn law_complete_state_keeps_parts(
    version: u64,
    metadata: Metadata,
    protocol: Protocol,
    num_files: i64,
    table_size_bytes: i64,
    file_size_histogram: Option<FileSizeHistogram>,
    in_commit_timestamp_opt: Option<i64>,
    set_transactions: Option<Vec<SetTransaction>>,
    domain_metadata: Option<Vec<DomainMetadata>>,
    crc: Crc,
)
    requires
        raw::complete_state(
            CrcRawView::complete(
                metadata.deep_view(),
                protocol.deep_view(),
                num_files,
                table_size_bytes,
                file_size_histogram.deep_view(),
                in_commit_timestamp_opt,
                set_transactions.deep_view(),
                domain_metadata.deep_view(),
            ),
            version,
            Ok::<Crc, Error>(crc),
        ),
    ensures
        crc.version == version,
        crc.metadata.deep_view() == metadata.deep_view(),
        crc.protocol.deep_view() == protocol.deep_view(),
        crc.file_stats_state matches FileStatsState::Complete(stats) && stats.num_files
            == num_files && stats.table_size_bytes == table_size_bytes
            && stats.file_size_histogram.deep_view() == file_size_histogram.deep_view(),
        crc.in_commit_timestamp_opt == in_commit_timestamp_opt,
        crc.txn_id is None,
        crc.all_files is None,
        crc.num_deleted_records_opt is None,
        crc.num_deletion_vectors_opt is None,
        crc.deleted_record_counts_histogram_opt is None,
        crc.set_transaction_state is Complete <==> set_transactions is Some,
        crc.domain_metadata_state is Complete <==> domain_metadata is Some,
        set_transactions matches Some(list) ==> forall|i: int|
            0 <= i < list@.len() ==> crc.deep_view().set_transaction_state.entries().contains_key(
                (#[trigger] list@[i]).app_id@,
            ) && crc.deep_view().set_transaction_state.entries()[list@[i].app_id@]
                == list@[i].deep_view(),
        domain_metadata matches Some(list) ==> forall|i: int|
            0 <= i < list@.len() ==> crc.deep_view().domain_metadata_state.entries().contains_key(
                (#[trigger] list@[i]).domain@,
            ) && crc.deep_view().domain_metadata_state.entries()[list@[i].domain@]
                == list@[i].deep_view(),
{
    if let Some(list) = set_transactions {
        let pairs = state::keyed_transactions(list.deep_view());
        assert forall|i: int|
            0 <= i < list@.len() implies crc.deep_view().set_transaction_state.entries().contains_key(
            (#[trigger] list@[i]).app_id@,
        ) && crc.deep_view().set_transaction_state.entries()[list@[i].app_id@]
            == list@[i].deep_view() by {
            assert(list.deep_view()[i] == list@[i].deep_view());
            assert(pairs[i] == (list@[i].app_id@, list@[i].deep_view()));
            string_map::lemma_pairs_map_value(pairs, i);
        }
    }
    if let Some(list) = domain_metadata {
        let pairs = state::keyed_domains(list.deep_view());
        assert forall|i: int|
            0 <= i < list@.len() implies crc.deep_view().domain_metadata_state.entries().contains_key(
            (#[trigger] list@[i]).domain@,
        ) && crc.deep_view().domain_metadata_state.entries()[list@[i].domain@]
            == list@[i].deep_view() by {
            assert(list.deep_view()[i] == list@[i].deep_view());
            assert(pairs[i] == (list@[i].domain@, list@[i].deep_view()));
            string_map::lemma_pairs_map_value(pairs, i);
        }
    }
}

/// A document gives a state only where it was parsed and the table format accepts its protocol; the
/// state is then the one that its fields describe. A document that was not parsed, or whose
/// protocol is refused, is malformed.
pub proof fn law_document_read<F: TableFormat>(
    format: &F,
    document: Result<CrcRaw, String>,
    version: u64,
    res: Result<Crc, Error>,
)
    requires
        raw::document_state(format, document, version, res),
    ensures
        match document {
            Err(message) => res is Err && res->Err_0.deep_view() == ErrorView::MalformedJson(
                message@,
            ),
            Ok(fields) => {
                ||| call_ensures(
                    F::check_protocol,
                    (format, &fields.protocol),
                    Ok::<(), Error>(()),
                ) && raw::described_state(format, fields.deep_view(), version, res)
                ||| res is Err && res->Err_0.deep_view() is MalformedJson && exists|refusal: Error|
                    #[trigger]
                    call_ensures(
                        F::check_protocol,
                        (format, &fields.protocol),
                        Err::<(), Error>(refusal),
                    )
            },
        },
{
    if let Ok(fields) = document {
        let answer = choose|answer: Result<(), Error>| #[trigger]
            call_ensures(F::check_protocol, (format, &fields.protocol), answer) && match answer {
                Err(refusal) => error::fails(
                    res,
                    ErrorView::MalformedJson(refusal.deep_view().text()),
                ),
                Ok(()) => raw::described_state(format, fields.deep_view(), version, res),
            };
        if let Ok(unit) = answer {
            assert(unit == ());
        }
    }
}

} // verus!
