//! The state of a checksum file in the shape in which it is persisted.

use vstd::prelude::*;
use vstd::string::*;

use crate::actions::{
    Add, AddView, DeletionVectorDescriptor, DeletionVectorDescriptorView,
    DeletionVectorStorageType, DomainMetadata, DomainMetadataView, Metadata, MetadataView,
    Protocol, ProtocolView, SetTransaction, SetTransactionView,
};
use crate::crc::checksum::{Crc, CrcView};
use crate::crc::deleted_records;
use crate::crc::deleted_records::{DeletedRecordCountsHistogram, DeletedRecordCountsHistogramView};
use crate::crc::file_size_histogram;
use crate::crc::file_size_histogram::{
    de_validated_file_size_histogram, FileSizeHistogram, FileSizeHistogramRaw,
    FileSizeHistogramView,
};
use crate::crc::file_stats::{FileStats, FileStatsView};
use crate::crc::state;
use crate::crc::state::{
    DomainMetadataState, DomainMetadataStateView, FileStatsState, FileStatsStateView,
    SetTransactionState, SetTransactionStateView,
};
use crate::data::Data;
use crate::error;
use crate::error::Error;
use crate::error::ErrorView;
use crate::snapshot::engine::TableFormat;
use crate::string_map;
use crate::string_map::StringMap;
use crate::text;
use crate::text::{around, i64_text, join};

verus! {

/// A deletion vector as a checksum file holds it.
#[derive(Debug)]
pub struct CrcDeletionVectorRaw {
    /// The name of the storage type.
    pub storage_type: String,
    /// The path of the file, or the vector itself.
    pub path_or_inline_dv: String,
    /// Where in the file the vector starts.
    pub offset: Option<i32>,
    /// The size of the serialized vector.
    pub size_in_bytes: i32,
    /// The number of rows that the vector deletes.
    pub cardinality: i64,
}

/// The mathematical value of [`CrcDeletionVectorRaw`].
#[verifier::ext_equal]
pub struct CrcDeletionVectorRawView {
    pub storage_type: Seq<char>,
    pub path_or_inline_dv: Seq<char>,
    pub offset: Option<i32>,
    pub size_in_bytes: i32,
    pub cardinality: i64,
}

impl DeepView for CrcDeletionVectorRaw {
    type V = CrcDeletionVectorRawView;

    open spec fn deep_view(&self) -> CrcDeletionVectorRawView {
        CrcDeletionVectorRawView {
            storage_type: self.storage_type.deep_view(),
            path_or_inline_dv: self.path_or_inline_dv.deep_view(),
            offset: self.offset,
            size_in_bytes: self.size_in_bytes,
            cardinality: self.cardinality,
        }
    }
}

/// A data file as a checksum file holds it.
#[derive(Debug)]
pub struct CrcAddRaw {
    /// The path of the file.
    pub path: String,
    /// The value of each partition column, which may be null.
    pub partition_values: StringMap<Option<String>>,
    /// The size of the file in bytes.
    pub size: i64,
    /// When the file was created, in milliseconds since the Unix epoch.
    pub modification_time: i64,
    /// Whether the file holds new data rather than a rearrangement.
    pub data_change: bool,
    /// Statistics on the data, as a JSON document.
    pub stats: Option<String>,
    /// Metadata on the file.
    pub tags: Option<StringMap<Option<String>>>,
    /// The rows of the file that are deleted.
    pub deletion_vector: Option<CrcDeletionVectorRaw>,
    /// The row id of the first row.
    pub base_row_id: Option<i64>,
    /// The first commit version with this path.
    pub default_row_commit_version: Option<i64>,
    /// The clustering implementation that wrote the file.
    pub clustering_provider: Option<String>,
}

/// The mathematical value of [`CrcAddRaw`].
#[verifier::ext_equal]
pub struct CrcAddRawView {
    pub path: Seq<char>,
    pub partition_values: Map<Seq<char>, Option<Seq<char>>>,
    pub size: i64,
    pub modification_time: i64,
    pub data_change: bool,
    pub stats: Option<Seq<char>>,
    pub tags: Option<Map<Seq<char>, Option<Seq<char>>>>,
    pub deletion_vector: Option<CrcDeletionVectorRawView>,
    pub base_row_id: Option<i64>,
    pub default_row_commit_version: Option<i64>,
    pub clustering_provider: Option<Seq<char>>,
}

impl DeepView for CrcAddRaw {
    type V = CrcAddRawView;

    open spec fn deep_view(&self) -> CrcAddRawView {
        CrcAddRawView {
            path: self.path.deep_view(),
            partition_values: self.partition_values.deep_view(),
            size: self.size,
            modification_time: self.modification_time,
            data_change: self.data_change,
            stats: self.stats.deep_view(),
            tags: self.tags.deep_view(),
            deletion_vector: self.deletion_vector.deep_view(),
            base_row_id: self.base_row_id,
            default_row_commit_version: self.default_row_commit_version,
            clustering_provider: self.clustering_provider.deep_view(),
        }
    }
}

/// A checksum file, field by field. A list that is absent says nothing; one that is present, even
/// if empty, is all there is.
#[derive(Debug)]
pub struct CrcRaw {
    /// The identifier of the transaction that produced the commit.
    pub txn_id: Option<String>,
    /// The total size of the live files in bytes.
    pub table_size_bytes: i64,
    /// The number of live files.
    pub num_files: i64,
    /// The number of metadata actions, always one.
    pub num_metadata: i64,
    /// The number of protocol actions, always one.
    pub num_protocol: i64,
    /// The table metadata.
    pub metadata: Metadata,
    /// The table protocol.
    pub protocol: Protocol,
    /// The in-commit timestamp.
    pub in_commit_timestamp_opt: Option<i64>,
    /// The application transactions.
    pub set_transactions: Option<Vec<SetTransaction>>,
    /// The metadata domains.
    pub domain_metadata: Option<Vec<DomainMetadata>>,
    /// The distribution of the file sizes, unchecked.
    pub file_size_histogram: Option<FileSizeHistogramRaw>,
    /// Every live data file.
    pub all_files: Option<Vec<CrcAddRaw>>,
    /// The number of records that deletion vectors delete.
    pub num_deleted_records_opt: Option<i64>,
    /// The number of deletion vectors.
    pub num_deletion_vectors_opt: Option<i64>,
    /// The distribution of the deleted-record counts over the files, unchecked.
    pub deleted_record_counts_histogram_opt: Option<DeletedRecordCountsHistogram>,
}

/// The mathematical value of [`CrcRaw`].
#[verifier::ext_equal]
pub struct CrcRawView {
    pub txn_id: Option<Seq<char>>,
    pub table_size_bytes: i64,
    pub num_files: i64,
    pub num_metadata: i64,
    pub num_protocol: i64,
    pub metadata: MetadataView,
    pub protocol: ProtocolView,
    pub in_commit_timestamp_opt: Option<i64>,
    pub set_transactions: Option<Seq<SetTransactionView>>,
    pub domain_metadata: Option<Seq<DomainMetadataView>>,
    pub file_size_histogram: Option<FileSizeHistogramView>,
    pub all_files: Option<Seq<CrcAddRawView>>,
    pub num_deleted_records_opt: Option<i64>,
    pub num_deletion_vectors_opt: Option<i64>,
    pub deleted_record_counts_histogram_opt: Option<DeletedRecordCountsHistogramView>,
}

impl DeepView for CrcRaw {
    type V = CrcRawView;

    open spec fn deep_view(&self) -> CrcRawView {
        CrcRawView {
            txn_id: self.txn_id.deep_view(),
            table_size_bytes: self.table_size_bytes,
            num_files: self.num_files,
            num_metadata: self.num_metadata,
            num_protocol: self.num_protocol,
            metadata: self.metadata.deep_view(),
            protocol: self.protocol.deep_view(),
            in_commit_timestamp_opt: self.in_commit_timestamp_opt,
            set_transactions: self.set_transactions.deep_view(),
            domain_metadata: self.domain_metadata.deep_view(),
            file_size_histogram: self.file_size_histogram.deep_view(),
            all_files: self.all_files.deep_view(),
            num_deleted_records_opt: self.num_deleted_records_opt,
            num_deletion_vectors_opt: self.num_deletion_vectors_opt,
            deleted_record_counts_histogram_opt: self.deleted_record_counts_histogram_opt.deep_view(),
        }
    }
}

impl CrcDeletionVectorRawView {
    /// The deletion vector, given that the storage type is known.
    pub open spec fn deletion_vector(self) -> DeletionVectorDescriptorView {
        DeletionVectorDescriptorView {
            storage_type: DeletionVectorStorageType::named(self.storage_type)->0,
            path_or_inline_dv: self.path_or_inline_dv,
            offset: self.offset,
            size_in_bytes: self.size_in_bytes,
            cardinality: self.cardinality,
        }
    }

    /// The persisted shape of a deletion vector.
    pub open spec fn of(dv: DeletionVectorDescriptorView) -> CrcDeletionVectorRawView {
        CrcDeletionVectorRawView {
            storage_type: dv.storage_type.name(),
            path_or_inline_dv: dv.path_or_inline_dv,
            offset: dv.offset,
            size_in_bytes: dv.size_in_bytes,
            cardinality: dv.cardinality,
        }
    }
}

/// The error for a deletion vector whose storage type is unknown.
pub open spec fn unknown_storage(name: Seq<char>) -> ErrorView {
    ErrorView::Generic(DeletionVectorStorageType::unknown_name(name).text())
}

/// Whether `res` is the deletion vector, where its storage type is known and the table format
/// accepts it.
pub open spec fn deletion_vector_read<F: TableFormat>(
    format: &F,
    raw: CrcDeletionVectorRawView,
    res: Result<DeletionVectorDescriptor, Error>,
) -> bool {
    if DeletionVectorStorageType::named(raw.storage_type) is None {
        error::fails(res, unknown_storage(raw.storage_type))
    } else {
        exists|read: DeletionVectorDescriptor, answer: Result<(), Error>|
            read.deep_view() == raw.deletion_vector() && #[trigger] call_ensures(
                F::check_deletion_vector,
                (format, &read),
                answer,
            ) && error::accepted(read, answer, res)
    }
}

/// Whether `e` is what the table format answers for the deletion vector.
pub open spec fn deletion_vector_refused<F: TableFormat>(
    format: &F,
    raw: CrcDeletionVectorRawView,
    e: Error,
) -> bool {
    exists|read: DeletionVectorDescriptor|
        read.deep_view() == raw.deletion_vector() && #[trigger] call_ensures(
            F::check_deletion_vector,
            (format, &read),
            Err::<(), Error>(e),
        )
}

impl CrcDeletionVectorRaw {
    /// The deletion vector.
    ///
    /// # Errors
    ///
    /// Where the storage type is unknown, or the table format refuses the deletion vector.
    pub fn try_into_deletion_vector<F: TableFormat>(self, format: &F) -> (res: Result<
        DeletionVectorDescriptor,
        Error,
    >)
        ensures
            deletion_vector_read(format, self.deep_view(), res),
    {
        let storage_type = match DeletionVectorStorageType::parse(&self.storage_type) {
            Ok(storage_type) => storage_type,
            Err(e) => {
                return Err(Error::Generic(e.to_text()));
            },
        };
        let read = DeletionVectorDescriptor {
            storage_type,
            path_or_inline_dv: self.path_or_inline_dv,
            offset: self.offset,
            size_in_bytes: self.size_in_bytes,
            cardinality: self.cardinality,
        };
        let answer = format.check_deletion_vector(&read);
        let ghost given = read;
        let ghost answered = answer;
        assert(call_ensures(F::check_deletion_vector, (format, &given), answered));
        match answer {
            Ok(()) => Ok(read),
            Err(e) => Err(e),
        }
    }

    /// The persisted shape of a deletion vector.
    pub fn from_deletion_vector(deletion_vector: &DeletionVectorDescriptor) -> (res: Self)
        ensures
            res.deep_view() == CrcDeletionVectorRawView::of(deletion_vector.deep_view()),
    {
        CrcDeletionVectorRaw {
            storage_type: deletion_vector.storage_type.to_name(),
            path_or_inline_dv: deletion_vector.path_or_inline_dv.dup(),
            offset: deletion_vector.offset,
            size_in_bytes: deletion_vector.size_in_bytes,
            cardinality: deletion_vector.cardinality,
        }
    }
}

/// The entries whose value is not null.
pub open spec fn non_null(values: Map<Seq<char>, Option<Seq<char>>>) -> Map<Seq<char>, Seq<char>> {
    Map::new(
        |key: Seq<char>| values.contains_key(key) && values[key] is Some,
        |key: Seq<char>| values[key]->0,
    )
}

/// The entries, none of them null.
pub open spec fn nullable(values: Map<Seq<char>, Seq<char>>) -> Map<Seq<char>, Option<Seq<char>>> {
    values.map_values(|value: Seq<char>| Some(value))
}

impl CrcAddRawView {
    /// Whether the storage type of the deletion vector, where there is one, is known.
    pub open spec fn storage_known(self) -> bool {
        self.deletion_vector matches Some(dv) ==> DeletionVectorStorageType::named(
            dv.storage_type,
        ) is Some
    }

    /// The data file. A partition column whose value is null has no entry.
    pub open spec fn add(self) -> AddView {
        AddView {
            path: self.path,
            partition_values: non_null(self.partition_values),
            size: self.size,
            modification_time: self.modification_time,
            data_change: self.data_change,
            stats: self.stats,
            tags: self.tags,
            deletion_vector: match self.deletion_vector {
                Some(dv) => Some(dv.deletion_vector()),
                None => None,
            },
            base_row_id: self.base_row_id,
            default_row_commit_version: self.default_row_commit_version,
            clustering_provider: self.clustering_provider,
        }
    }

    /// The persisted shape of a data file.
    pub open spec fn of(add: AddView) -> CrcAddRawView {
        CrcAddRawView {
            path: add.path,
            partition_values: nullable(add.partition_values),
            size: add.size,
            modification_time: add.modification_time,
            data_change: add.data_change,
            stats: add.stats,
            tags: add.tags,
            deletion_vector: match add.deletion_vector {
                Some(dv) => Some(CrcDeletionVectorRawView::of(dv)),
                None => None,
            },
            base_row_id: add.base_row_id,
            default_row_commit_version: add.default_row_commit_version,
            clustering_provider: add.clustering_provider,
        }
    }
}

/// A data file is what its persisted shape stands for.
pub proof fn law_add_round_trip(add: AddView)
    ensures
        CrcAddRawView::of(add).storage_known(),
        CrcAddRawView::of(add).add() == add,
{
    if let Some(dv) = add.deletion_vector {
        dv.storage_type.lemma_named();
    }
    assert(non_null(nullable(add.partition_values)) =~= add.partition_values);
}

fn without_nulls(values: &StringMap<Option<String>>) -> (res: StringMap<String>)
    ensures
        res.deep_view() == non_null(values.deep_view()),
{
    let n = values.len();
    let ghost pairs = values.pairs();
    let mut res: StringMap<String> = StringMap::new();
    let mut i: usize = 0;
    assert(pairs.take(0) =~= Seq::empty());
    assert(res.deep_view() =~= non_null(string_map::pairs_map(pairs.take(0))));
    while i < n
        invariant
            i <= n,
            pairs == values.pairs(),
            n == pairs.len(),
            string_map::keys_distinct(pairs),
            res.deep_view() == non_null(string_map::pairs_map(pairs.take(i as int))),
        decreases n - i,
    {
        let ghost seen = string_map::pairs_map(pairs.take(i as int));
        let ghost before = res.deep_view();
        let key = values.key_at(i).dup();
        let ghost name = key@;
        proof {
            string_map::lemma_take_distinct(pairs, i as int);
            string_map::lemma_take_extends(pairs, i as int);
            string_map::lemma_pairs_map_keys(pairs.take(i as int), name);
            string_map::lemma_take_distinct(pairs, i + 1);
        }
        if let Some(value) = values.value_at(i) {
            res.insert(key, value.dup());
        }
        assert(res.deep_view() =~= non_null(seen.insert(pairs[i as int].0, pairs[i as int].1)));
        i = i + 1;
    }
    assert(pairs.take(pairs.len() as int) =~= pairs);
    res
}

fn with_nulls_allowed(values: &StringMap<String>) -> (res: StringMap<Option<String>>)
    ensures
        res.deep_view() == nullable(values.deep_view()),
{
    let n = values.len();
    let ghost pairs = values.pairs();
    let mut res: StringMap<Option<String>> = StringMap::new();
    let mut i: usize = 0;
    assert(pairs.take(0) =~= Seq::empty());
    assert(res.deep_view() =~= nullable(string_map::pairs_map(pairs.take(0))));
    while i < n
        invariant
            i <= n,
            pairs == values.pairs(),
            n == pairs.len(),
            string_map::keys_distinct(pairs),
            res.deep_view() == nullable(string_map::pairs_map(pairs.take(i as int))),
        decreases n - i,
    {
        let ghost seen = string_map::pairs_map(pairs.take(i as int));
        proof {
            string_map::lemma_take_distinct(pairs, i as int);
            string_map::lemma_take_extends(pairs, i as int);
        }
        res.insert(values.key_at(i).dup(), Some(values.value_at(i).dup()));
        assert(res.deep_view() =~= nullable(seen.insert(pairs[i as int].0, pairs[i as int].1)));
        i = i + 1;
    }
    assert(pairs.take(pairs.len() as int) =~= pairs);
    res
}

/// Whether `res` is the data file, where its deletion vector can be read.
pub open spec fn add_read<F: TableFormat>(
    format: &F,
    raw: CrcAddRawView,
    res: Result<Add, Error>,
) -> bool {
    match raw.deletion_vector {
        None => res matches Ok(add) && add.deep_view() == raw.add(),
        Some(dv) => match res {
            Ok(add) => add.deep_view() == raw.add() && add.deletion_vector is Some
                && deletion_vector_read(
                format,
                dv,
                Ok::<DeletionVectorDescriptor, Error>(add.deletion_vector->0),
            ),
            Err(e) => deletion_vector_read(format, dv, Err::<DeletionVectorDescriptor, Error>(e)),
        },
    }
}

impl CrcAddRaw {
    /// The data file.
    ///
    /// # Errors
    ///
    /// Where the deletion vector cannot be read.
    pub fn try_into_add<F: TableFormat>(self, format: &F) -> (res: Result<Add, Error>)
        ensures
            add_read(format, self.deep_view(), res),
    {
        let deletion_vector = match self.deletion_vector {
            Some(raw) => match raw.try_into_deletion_vector(format) {
                Ok(dv) => Some(dv),
                Err(e) => {
                    return Err(e);
                },
            },
            None => None,
        };
        Ok(
            Add {
                path: self.path,
                partition_values: without_nulls(&self.partition_values),
                size: self.size,
                modification_time: self.modification_time,
                data_change: self.data_change,
                stats: self.stats,
                tags: self.tags,
                deletion_vector,
                base_row_id: self.base_row_id,
                default_row_commit_version: self.default_row_commit_version,
                clustering_provider: self.clustering_provider,
            },
        )
    }

    /// The persisted shape of a data file.
    pub fn from_add(add: &Add) -> (res: Self)
        ensures
            res.deep_view() == CrcAddRawView::of(add.deep_view()),
    {
        CrcAddRaw {
            path: add.path.dup(),
            partition_values: with_nulls_allowed(&add.partition_values),
            size: add.size,
            modification_time: add.modification_time,
            data_change: add.data_change,
            stats: add.stats.dup(),
            tags: add.tags.dup(),
            deletion_vector: match &add.deletion_vector {
                Some(dv) => Some(CrcDeletionVectorRaw::from_deletion_vector(dv)),
                None => None,
            },
            base_row_id: add.base_row_id,
            default_row_commit_version: add.default_row_commit_version,
            clustering_provider: add.clustering_provider.dup(),
        }
    }
}

/// The data files.
pub open spec fn adds(files: Seq<CrcAddRawView>) -> Seq<AddView> {
    files.map_values(|raw: CrcAddRawView| raw.add())
}

/// Whether the file at `i` cannot be read, after those that are done.
pub open spec fn add_fails<F: TableFormat>(
    format: &F,
    files: Seq<CrcAddRawView>,
    done: Seq<Add>,
    i: int,
    e: Error,
) -> bool {
    &&& 0 <= i < files.len()
    &&& done.len() == i
    &&& forall|j: int|
        0 <= j < i ==> add_read(format, files[j], Ok::<Add, Error>(#[trigger] done[j]))
    &&& add_read(format, files[i], Err::<Add, Error>(e))
}

/// Whether `res` is the list of the data files, or the error of the first that cannot be read.
pub open spec fn adds_read<F: TableFormat>(
    format: &F,
    files: Seq<CrcAddRawView>,
    res: Result<Vec<Add>, Error>,
) -> bool {
    match res {
        Ok(list) => list@.len() == files.len() && forall|i: int|
            0 <= i < files.len() ==> add_read(
                format,
                files[i],
                Ok::<Add, Error>(#[trigger] list@[i]),
            ),
        Err(e) => exists|i: int, done: Seq<Add>| #[trigger] add_fails(format, files, done, i, e),
    }
}

/// Data files that were read are the ones that their persisted shapes stand for.
proof fn lemma_adds_read<F: TableFormat>(format: &F, files: Seq<CrcAddRawView>, list: Vec<Add>)
    requires
        adds_read(format, files, Ok::<Vec<Add>, Error>(list)),
    ensures
        list.deep_view() == adds(files),
        forall|i: int| 0 <= i < files.len() ==> (#[trigger] files[i]).storage_known(),
{
    assert forall|i: int| 0 <= i < files.len() implies (#[trigger] files[i]).storage_known()
        && list@[i].deep_view() == files[i].add() by {
        assert(add_read(format, files[i], Ok::<Add, Error>(list@[i])));
    }
    assert(list.deep_view() =~= adds(files));
}

fn try_into_adds<F: TableFormat>(format: &F, values: Vec<CrcAddRaw>) -> (res: Result<
    Vec<Add>,
    Error,
>)
    ensures
        adds_read(format, values.deep_view(), res),
{
    let ghost raws = values@;
    let ghost files = values.deep_view();
    let mut list: Vec<Add> = Vec::new();
    for raw in it: values
        invariant
            it.seq() == raws,
            files.len() == raws.len(),
            forall|j: int| 0 <= j < raws.len() ==> files[j] == (#[trigger] raws[j]).deep_view(),
            files == values.deep_view(),
            list@.len() == it.index(),
            forall|j: int|
                0 <= j < it.index() ==> add_read(
                    format,
                    files[j],
                    Ok::<Add, Error>(#[trigger] list@[j]),
                ),
    {
        assert(files[it.index() as int] == raw.deep_view());
        match raw.try_into_add(format) {
            Ok(add) => {
                list.push(add);
            },
            Err(e) => {
                assert(add_fails(format, files, list@, it.index() as int, e));
                return Err(e);
            },
        }
    }
    Ok(list)
}

/// Whether `res` is the list of the data files, where there is one.
pub open spec fn all_files_read<F: TableFormat>(
    format: &F,
    files: Option<Seq<CrcAddRawView>>,
    res: Result<Option<Vec<Add>>, Error>,
) -> bool {
    match files {
        None => res == Ok::<Option<Vec<Add>>, Error>(None),
        Some(files) => match res {
            Ok(Some(list)) => adds_read(format, files, Ok::<Vec<Add>, Error>(list)),
            Ok(None) => false,
            Err(e) => adds_read(format, files, Err::<Vec<Add>, Error>(e)),
        },
    }
}

fn try_into_all_files<F: TableFormat>(format: &F, values: Option<Vec<CrcAddRaw>>) -> (res: Result<
    Option<Vec<Add>>,
    Error,
>)
    ensures
        all_files_read(format, values.deep_view(), res),
{
    match values {
        None => Ok(None),
        Some(values) => match try_into_adds(format, values) {
            Ok(list) => Ok(Some(list)),
            Err(e) => Err(e),
        },
    }
}

/// The error for a number of actions other than one.
pub open spec fn not_one(name: Seq<char>, value: i64) -> ErrorView {
    ErrorView::Generic(
        "CRC file has invalid "@ + name + ": expected 1, got "@ + text::int_text(value as int),
    )
}

/// The error for a negative statistic.
pub open spec fn negative_stat(name: Seq<char>, value: i64) -> ErrorView {
    ErrorView::Generic(
        "CRC file has invalid "@ + name + ": expected a non-negative value, got "@
            + text::int_text(value as int),
    )
}

impl CrcRawView {
    /// Whether the file-size histogram, where there is one, is usable.
    pub open spec fn histogram_usable(self) -> bool {
        self.file_size_histogram matches Some(h) ==> h.counts_non_negative() && h.well_formed()
    }

    /// The file-level statistics.
    pub open spec fn file_stats(self) -> FileStatsView {
        FileStatsView {
            num_files: self.num_files,
            table_size_bytes: self.table_size_bytes,
            file_size_histogram: self.file_size_histogram,
        }
    }

    /// What the file says of the application transactions.
    pub open spec fn set_transaction_state(self) -> SetTransactionStateView {
        match self.set_transactions {
            Some(values) => SetTransactionStateView::Complete(
                string_map::pairs_map(state::keyed_transactions(values)),
            ),
            None => SetTransactionStateView::Partial(Map::empty()),
        }
    }

    /// Whether no application has two transactions.
    pub open spec fn transactions_distinct(self) -> bool {
        self.set_transactions matches Some(values) ==> string_map::keys_distinct(
            state::keyed_transactions(values),
        )
    }

    /// What the file says of the metadata domains.
    pub open spec fn domain_metadata_state(self) -> DomainMetadataStateView {
        match self.domain_metadata {
            Some(values) => DomainMetadataStateView::Complete(
                string_map::pairs_map(state::keyed_domains(values)),
            ),
            None => DomainMetadataStateView::Partial(Map::empty()),
        }
    }

    /// Whether no domain has two actions and no action removes its domain.
    pub open spec fn domains_distinct_and_live(self) -> bool {
        self.domain_metadata matches Some(values) ==> string_map::keys_distinct(
            state::keyed_domains(values),
        ) && state::all_live(values)
    }

    /// Whether the storage type of every deletion vector is known.
    pub open spec fn storage_known(self) -> bool {
        self.all_files matches Some(files) ==> forall|i: int|
            0 <= i < files.len() ==> (#[trigger] files[i]).storage_known()
    }

    /// Whether the deleted-record histogram, where there is one, is usable.
    pub open spec fn deleted_records_usable(self) -> bool {
        self.deleted_record_counts_histogram_opt matches Some(h)
            ==> deleted_records::deleted_counts_valid(h.deleted_record_counts)
    }

    /// Whether the statistics and the lists make up the parts of a state.
    pub open spec fn lists_valid(self) -> bool {
        &&& self.file_stats().valid()
        &&& self.transactions_distinct()
        &&& self.domains_distinct_and_live()
    }

    /// Whether every field but the data files and the deleted-record histogram can be read.
    pub open spec fn fields_valid(self) -> bool {
        &&& self.histogram_usable()
        &&& self.num_metadata == 1
        &&& self.num_protocol == 1
        &&& self.lists_valid()
    }

    /// Whether every field can be read, so long as the table format accepts the deletion vectors.
    pub open spec fn readable(self) -> bool {
        &&& self.fields_valid()
        &&& self.storage_known()
        &&& self.deleted_records_usable()
    }

    /// The state that the file describes. The version comes from the name of the file.
    pub open spec fn crc(self, version: u64) -> CrcView {
        CrcView {
            version,
            metadata: self.metadata,
            protocol: self.protocol,
            file_stats_state: FileStatsStateView::Complete(self.file_stats()),
            in_commit_timestamp_opt: self.in_commit_timestamp_opt,
            set_transaction_state: self.set_transaction_state(),
            domain_metadata_state: self.domain_metadata_state(),
            txn_id: self.txn_id,
            all_files: match self.all_files {
                Some(files) => Some(adds(files)),
                None => None,
            },
            num_deleted_records_opt: self.num_deleted_records_opt,
            num_deletion_vectors_opt: self.num_deletion_vectors_opt,
            deleted_record_counts_histogram_opt: self.deleted_record_counts_histogram_opt,
        }
    }

    /// Whether `e` reports the first field, but for the data files and the deleted-record
    /// histogram, that cannot be read.
    pub open spec fn reports_fields(self, e: ErrorView) -> bool {
        if !self.histogram_usable() {
            file_size_histogram::reports_histogram(self.file_size_histogram->0, e)
        } else if self.num_metadata != 1 {
            e == not_one("numMetadata"@, self.num_metadata)
        } else if self.num_protocol != 1 {
            e == not_one("numProtocol"@, self.num_protocol)
        } else if self.num_files < 0 {
            e == negative_stat("numFiles"@, self.num_files)
        } else if self.table_size_bytes < 0 {
            e == negative_stat("tableSizeBytes"@, self.table_size_bytes)
        } else {
            self.reports_lists(e)
        }
    }

    /// Whether `e` reports the first reason why the statistics and the lists do not make up the
    /// parts of a state.
    pub open spec fn reports_lists(self, e: ErrorView) -> bool {
        if !self.file_stats().valid() {
            e == self.file_stats().inconsistency()
        } else if !self.transactions_distinct() {
            state::reports_duplicate_transaction(self.set_transactions->0, e)
        } else {
            state::reports_domain_action(self.domain_metadata->0, e)
        }
    }

    /// Whether this is a persisted shape of `crc`. The order of the transactions and of the
    /// domains is left open, since the maps that hold them promise none.
    pub open spec fn records(self, crc: CrcView) -> bool {
        &&& crc.file_stats_state == FileStatsStateView::Complete(self.file_stats())
        &&& self.num_metadata == 1
        &&& self.num_protocol == 1
        &&& self.metadata == crc.metadata
        &&& self.protocol == crc.protocol
        &&& self.in_commit_timestamp_opt == crc.in_commit_timestamp_opt
        &&& match crc.set_transaction_state {
            SetTransactionStateView::Complete(m) => self.set_transactions matches Some(values)
                && lists_transactions(values, m),
            SetTransactionStateView::Partial(_) => self.set_transactions is None,
        }
        &&& match crc.domain_metadata_state {
            DomainMetadataStateView::Complete(m) => self.domain_metadata matches Some(values)
                && lists_domains(values, m),
            DomainMetadataStateView::Partial(_) => self.domain_metadata is None,
        }
        &&& self.txn_id == crc.txn_id
        &&& self.all_files == match crc.all_files {
            Some(files) => Some(raw_adds(files)),
            None => None,
        }
        &&& self.num_deleted_records_opt == crc.num_deleted_records_opt
        &&& self.num_deletion_vectors_opt == crc.num_deletion_vectors_opt
        &&& self.deleted_record_counts_histogram_opt == crc.deleted_record_counts_histogram_opt
    }
}

impl CrcRawView {
    /// The persisted shape of a state of which no more is known.
    pub open spec fn complete(
        metadata: MetadataView,
        protocol: ProtocolView,
        num_files: i64,
        table_size_bytes: i64,
        file_size_histogram: Option<FileSizeHistogramView>,
        in_commit_timestamp_opt: Option<i64>,
        set_transactions: Option<Seq<SetTransactionView>>,
        domain_metadata: Option<Seq<DomainMetadataView>>,
    ) -> CrcRawView {
        CrcRawView {
            txn_id: None,
            table_size_bytes,
            num_files,
            num_metadata: 1,
            num_protocol: 1,
            metadata,
            protocol,
            in_commit_timestamp_opt,
            set_transactions,
            domain_metadata,
            file_size_histogram,
            all_files: None,
            num_deleted_records_opt: None,
            num_deletion_vectors_opt: None,
            deleted_record_counts_histogram_opt: None,
        }
    }
}

/// Whether `res` is the state that the parts make up at `version`, where they agree.
pub open spec fn agreed_state(parts: CrcRawView, version: u64, res: Result<Crc, Error>) -> bool {
    match res {
        Ok(crc) => parts.crc(version).valid() && crc.deep_view() == parts.crc(version),
        Err(e) => !parts.crc(version).valid() && parts.crc(version).reports(e.deep_view()),
    }
}

/// Whether `res` is the state that the fields of a checksum file for `version` describe, once the
/// data files have been read.
pub open spec fn files_state(
    raw: CrcRawView,
    version: u64,
    files: Result<Option<Vec<Add>>, Error>,
    res: Result<Crc, Error>,
) -> bool {
    match files {
        Err(e) => res == Err::<Crc, Error>(e),
        Ok(_) => if raw.deleted_records_usable() {
            agreed_state(raw, version, res)
        } else {
            res matches Err(e) && deleted_records::reports_deleted_counts(
                raw.deleted_record_counts_histogram_opt->0.deleted_record_counts,
                e.deep_view(),
            )
        },
    }
}

/// Whether `res` is the state that the fields of a checksum file for `version` describe. The table
/// format has a say on the deletion vectors.
pub open spec fn described_state<F: TableFormat>(
    format: &F,
    raw: CrcRawView,
    version: u64,
    res: Result<Crc, Error>,
) -> bool {
    if !raw.fields_valid() {
        res matches Err(e) && raw.reports_fields(e.deep_view())
    } else {
        exists|files: Result<Option<Vec<Add>>, Error>| #[trigger]
            all_files_read(format, raw.all_files, files) && files_state(raw, version, files, res)
    }
}

/// The storage type of every deletion vector of a file that was read is known.
pub proof fn lemma_described_files_known<F: TableFormat>(
    format: &F,
    raw: CrcRawView,
    version: u64,
    crc: Crc,
)
    requires
        described_state(format, raw, version, Ok::<Crc, Error>(crc)),
    ensures
        raw.storage_known(),
{
    let files = choose|files: Result<Option<Vec<Add>>, Error>| #[trigger]
        all_files_read(format, raw.all_files, files) && files_state(
            raw,
            version,
            files,
            Ok::<Crc, Error>(crc),
        );
    if let Some(shapes) = raw.all_files {
        lemma_adds_read(format, shapes, files->Ok_0->0);
    }
}

/// Whether `res` is the state that a checksum file for `version` describes, given its fields or
/// the text of the error of parsing it. The table format has a say on the protocol.
pub open spec fn document_state<F: TableFormat>(
    format: &F,
    document: Result<CrcRaw, String>,
    version: u64,
    res: Result<Crc, Error>,
) -> bool {
    match document {
        Err(message) => error::fails(res, ErrorView::MalformedJson(message@)),
        Ok(raw) => exists|answer: Result<(), Error>| #[trigger]
            call_ensures(F::check_protocol, (format, &raw.protocol), answer) && match answer {
                Err(refusal) => error::fails(
                    res,
                    ErrorView::MalformedJson(refusal.deep_view().text()),
                ),
                Ok(()) => described_state(format, raw.deep_view(), version, res),
            },
    }
}

/// Whether `res` is the state that statistics and lists make up at `version`.
pub open spec fn complete_state(parts: CrcRawView, version: u64, res: Result<Crc, Error>) -> bool {
    if !parts.lists_valid() {
        res matches Err(e) && parts.reports_lists(e.deep_view())
    } else {
        agreed_state(parts, version, res)
    }
}

/// Whether the list holds each transaction of the map once.
pub open spec fn lists_transactions(
    values: Seq<SetTransactionView>,
    m: Map<Seq<char>, SetTransactionView>,
) -> bool {
    &&& string_map::keys_distinct(state::keyed_transactions(values))
    &&& string_map::pairs_map(state::keyed_transactions(values)) == m
}

/// Whether the list holds each domain of the map once.
pub open spec fn lists_domains(
    values: Seq<DomainMetadataView>,
    m: Map<Seq<char>, DomainMetadataView>,
) -> bool {
    &&& string_map::keys_distinct(state::keyed_domains(values))
    &&& string_map::pairs_map(state::keyed_domains(values)) == m
}

/// The persisted shapes of the data files.
pub open spec fn raw_adds(files: Seq<AddView>) -> Seq<CrcAddRawView> {
    files.map_values(|add: AddView| CrcAddRawView::of(add))
}

impl CrcView {
    /// What of the state is persisted: partial knowledge of transactions and of domains is not.
    pub open spec fn persisted(self) -> CrcView {
        CrcView {
            set_transaction_state: match self.set_transaction_state {
                SetTransactionStateView::Complete(m) => SetTransactionStateView::Complete(m),
                SetTransactionStateView::Partial(_) => SetTransactionStateView::Partial(
                    Map::empty(),
                ),
            },
            domain_metadata_state: match self.domain_metadata_state {
                DomainMetadataStateView::Complete(m) => DomainMetadataStateView::Complete(m),
                DomainMetadataStateView::Partial(_) => DomainMetadataStateView::Partial(
                    Map::empty(),
                ),
            },
            ..self
        }
    }
}

/// A persisted shape of a consistent state stands for what of the state is persisted.
///
/// A file-size histogram with negative counters is the exception: a state may carry one whose
/// totals agree with the statistics, but reading rejects it.
pub proof fn law_persisted_shape_stands_for_state(crc: CrcView, raw: CrcRawView)
    requires
        crc.valid(),
        raw.records(crc),
        raw.histogram_usable(),
    ensures
        raw.readable(),
        raw.crc(crc.version) == crc.persisted(),
        raw.crc(crc.version).valid(),
{
    if let Some(files) = crc.all_files {
        assert forall|i: int| 0 <= i < files.len() implies CrcAddRawView::of(
            #[trigger] files[i],
        ).storage_known() && CrcAddRawView::of(files[i]).add() == files[i] by {
            law_add_round_trip(files[i]);
        }
        assert(adds(raw_adds(files)) =~= files);
    }
    if let Some(values) = raw.domain_metadata {
        let pairs = state::keyed_domains(values);
        assert forall|i: int| 0 <= i < values.len() implies !(#[trigger] values[i]).removed by {
            string_map::lemma_pairs_map_value(pairs, i);
            assert(pairs[i].1 == values[i]);
        }
    }
    assert(raw.crc(crc.version) == crc.persisted());
}

/// Reading a persisted shape of a consistent state gives back what of the state is persisted,
/// unless the table format refuses one of its deletion vectors.
///
/// A file-size histogram with negative counters is the exception: a state may carry one whose
/// totals agree with the statistics, but reading rejects it.
pub proof fn law_round_trip<F: TableFormat>(
    format: &F,
    crc: CrcView,
    raw: CrcRawView,
    res: Result<Crc, Error>,
)
    requires
        crc.valid(),
        raw.records(crc),
        raw.histogram_usable(),
        described_state(format, raw, crc.version, res),
    ensures
        match res {
            Ok(back) => back.deep_view() == crc.persisted(),
            Err(e) => exists|i: int|
                0 <= i < raw.all_files->0.len() && (#[trigger] raw.all_files->0[i]).deletion_vector is Some
                    && deletion_vector_refused(format, raw.all_files->0[i].deletion_vector->0, e),
        },
{
    law_persisted_shape_stands_for_state(crc, raw);
    let files = choose|files: Result<Option<Vec<Add>>, Error>| #[trigger]
        all_files_read(format, raw.all_files, files) && files_state(raw, crc.version, files, res);
    if let Err(e) = files {
        let shapes = raw.all_files->0;
        let (i, done) = choose|i: int, done: Seq<Add>| #[trigger]
            add_fails(format, shapes, done, i, e);
        assert(shapes[i].storage_known());
        assert(deletion_vector_refused(format, shapes[i].deletion_vector->0, e));
    }
}

/// What was read from a file is persisted whole: writing it and reading it again changes nothing.
pub proof fn law_read_state_is_stable(raw: CrcRawView, version: u64, again: CrcRawView)
    requires
        raw.readable(),
        raw.crc(version).valid(),
        again.records(raw.crc(version)),
    ensures
        again.readable(),
        again.crc(version) == raw.crc(version),
{
    law_persisted_shape_stands_for_state(raw.crc(version), again);
}

/// A list that is present, even if empty, is all there is; one that is absent leaves nothing
/// known.
pub proof fn law_presence_decides_completeness(raw: CrcRawView, version: u64)
    ensures
        raw.crc(version).set_transaction_state is Complete <==> raw.set_transactions is Some,
        raw.set_transactions is None ==> raw.crc(version).set_transaction_state.entries()
            == Map::<Seq<char>, SetTransactionView>::empty(),
        raw.crc(version).domain_metadata_state is Complete <==> raw.domain_metadata is Some,
        raw.domain_metadata is None ==> raw.crc(version).domain_metadata_state.entries()
            == Map::<Seq<char>, DomainMetadataView>::empty(),
{
}

/// Only complete knowledge of transactions and of domains is persisted.
pub proof fn law_only_complete_knowledge_is_persisted(crc: CrcView, raw: CrcRawView)
    requires
        raw.records(crc),
    ensures
        raw.set_transactions is Some <==> crc.set_transaction_state is Complete,
        raw.domain_metadata is Some <==> crc.domain_metadata_state is Complete,
{
}

/// A state whose file statistics are not known has no persisted shape.
pub proof fn law_degraded_state_is_not_persisted(crc: CrcView, raw: CrcRawView)
    requires
        crc.file_stats_state is Indeterminate,
    ensures
        !raw.records(crc),
{
}

fn transaction_list(m: &StringMap<SetTransaction>) -> (res: Vec<SetTransaction>)
    requires
        state::transactions_keyed(m.deep_view()),
    ensures
        lists_transactions(res.deep_view(), m.deep_view()),
{
    let n = m.len();
    let mut res: Vec<SetTransaction> = Vec::new();
    let mut i: usize = 0;
    while i < n
        invariant
            i <= n,
            n == m.pairs().len(),
            res@.len() == i,
            state::transactions_keyed(m.deep_view()),
            forall|j: int|
                0 <= j < i ==> m.pairs()[j] == (
                    (#[trigger] res@[j]).deep_view().app_id,
                    res@[j].deep_view(),
                ),
        decreases n - i,
    {
        let key = m.key_at(i);
        let value = m.value_at(i);
        assert(m.deep_view()[key@].app_id == key@);
        res.push(value.dup());
        i = i + 1;
    }
    assert(state::keyed_transactions(res.deep_view()) =~= m.pairs());
    res
}

fn domain_list(m: &StringMap<DomainMetadata>) -> (res: Vec<DomainMetadata>)
    requires
        state::domains_keyed_and_live(m.deep_view()),
    ensures
        lists_domains(res.deep_view(), m.deep_view()),
{
    let n = m.len();
    let mut res: Vec<DomainMetadata> = Vec::new();
    let mut i: usize = 0;
    while i < n
        invariant
            i <= n,
            n == m.pairs().len(),
            res@.len() == i,
            state::domains_keyed_and_live(m.deep_view()),
            forall|j: int|
                0 <= j < i ==> m.pairs()[j] == (
                    (#[trigger] res@[j]).deep_view().domain,
                    res@[j].deep_view(),
                ),
        decreases n - i,
    {
        let key = m.key_at(i);
        let value = m.value_at(i);
        assert(m.deep_view()[key@].domain == key@);
        res.push(value.dup());
        i = i + 1;
    }
    assert(state::keyed_domains(res.deep_view()) =~= m.pairs());
    res
}

fn raw_add_list(files: &Vec<Add>) -> (res: Vec<CrcAddRaw>)
    ensures
        res.deep_view() == raw_adds(files.deep_view()),
{
    let mut res: Vec<CrcAddRaw> = Vec::new();
    let mut i: usize = 0;
    while i < files.len()
        invariant
            i <= files@.len(),
            res@.len() == i,
            forall|j: int|
                0 <= j < i ==> (#[trigger] res@[j]).deep_view() == CrcAddRawView::of(
                    files@[j].deep_view(),
                ),
        decreases files@.len() - i,
    {
        res.push(CrcAddRaw::from_add(&files[i]));
        i = i + 1;
    }
    assert(res.deep_view() =~= raw_adds(files.deep_view()));
    res
}

/// The error for a state whose file statistics are not known.
pub open spec fn degraded() -> ErrorView {
    ErrorView::ChecksumWriteUnsupported("Cannot serialize CRC with Indeterminate file stats"@)
}

impl CrcRaw {
    /// The persisted shape of a state.
    ///
    /// # Errors
    ///
    /// Where the state is not consistent, or its file statistics are not known: a degraded state
    /// has no persisted shape.
    pub fn try_from(crc: &Crc) -> (res: Result<Self, Error>)
        ensures
            match res {
                Ok(raw) => crc.deep_view().valid() && crc.deep_view().file_stats_state is Complete
                    && raw.deep_view().records(crc.deep_view()),
                Err(e) => if crc.deep_view().valid() {
                    crc.deep_view().file_stats_state is Indeterminate && e.deep_view()
                        == degraded()
                } else {
                    crc.deep_view().reports(e.deep_view())
                },
            },
    {
        if let Err(e) = crc.validate() {
            return Err(e);
        }
        let stats = match &crc.file_stats_state {
            FileStatsState::Complete(stats) => stats,
            FileStatsState::Indeterminate => {
                return Err(
                    Error::ChecksumWriteUnsupported(
                        String::from_str("Cannot serialize CRC with Indeterminate file stats"),
                    ),
                );
            },
        };
        Ok(
            CrcRaw {
                txn_id: crc.txn_id.dup(),
                table_size_bytes: stats.table_size_bytes,
                num_files: stats.num_files,
                num_metadata: 1,
                num_protocol: 1,
                metadata: crc.metadata.dup(),
                protocol: crc.protocol.dup(),
                in_commit_timestamp_opt: crc.in_commit_timestamp_opt,
                set_transactions: match &crc.set_transaction_state {
                    SetTransactionState::Complete(m) => Some(transaction_list(m)),
                    SetTransactionState::Partial(_) => None,
                },
                domain_metadata: match &crc.domain_metadata_state {
                    DomainMetadataState::Complete(m) => Some(domain_list(m)),
                    DomainMetadataState::Partial(_) => None,
                },
                file_size_histogram: match &stats.file_size_histogram {
                    Some(histogram) => Some(FileSizeHistogramRaw::of(histogram)),
                    None => None,
                },
                all_files: match &crc.all_files {
                    Some(files) => Some(raw_add_list(files)),
                    None => None,
                },
                num_deleted_records_opt: crc.num_deleted_records_opt,
                num_deletion_vectors_opt: crc.num_deletion_vectors_opt,
                deleted_record_counts_histogram_opt:
                    crc.deleted_record_counts_histogram_opt.dup(),
            },
        )
    }
}

fn require_one(name: &str, value: i64) -> (res: Result<(), Error>)
    ensures
        match res {
            Ok(()) => value == 1,
            Err(e) => value != 1 && e.deep_view() == not_one(name@, value),
        },
{
    if value != 1 {
        let head = around("CRC file has invalid ", name, ": expected 1, got ");
        return Err(Error::Generic(join(head.as_str(), i64_text(value).as_str())));
    }
    Ok(())
}

fn require_non_negative(name: &str, value: i64) -> (res: Result<(), Error>)
    ensures
        match res {
            Ok(()) => value >= 0,
            Err(e) => value < 0 && e.deep_view() == negative_stat(name@, value),
        },
{
    if value < 0 {
        let head = around(
            "CRC file has invalid ",
            name,
            ": expected a non-negative value, got ",
        );
        return Err(Error::Generic(join(head.as_str(), i64_text(value).as_str())));
    }
    Ok(())
}

impl Crc {
    /// The state of a table at `version` with known statistics. A list of transactions or domains
    /// that is present is complete.
    ///
    /// # Errors
    ///
    /// Where the statistics are invalid, a list has an application or domain twice or a removed
    /// domain, or the parts do not agree.
    pub fn try_new_complete(
        version: u64,
        metadata: Metadata,
        protocol: Protocol,
        num_files: i64,
        table_size_bytes: i64,
        file_size_histogram: Option<FileSizeHistogram>,
        in_commit_timestamp_opt: Option<i64>,
        set_transactions: Option<Vec<SetTransaction>>,
        domain_metadata: Option<Vec<DomainMetadata>>,
    ) -> (res: Result<Self, Error>)
        ensures
            complete_state(
                CrcRawView::complete(
                    metadata.deep_view(),
                    protocol.deep_view(),
                    num_files,
                    table_size_bytes,
                    file_size_histogram.deep_view(),
                    in_commit_timestamp_opt,
                    set_transactions.deep_view(),
                    domain_metadata.deep_view(),
                ),
                version,
                res,
            ),
    {
        let file_stats_state = match FileStats::try_new(
            num_files,
            table_size_bytes,
            file_size_histogram,
        ) {
            Ok(stats) => FileStatsState::Complete(stats),
            Err(e) => {
                return Err(e);
            },
        };
        let set_transaction_state = match set_transactions {
            Some(values) => match SetTransactionState::try_complete(values) {
                Ok(complete) => complete,
                Err(e) => {
                    return Err(e);
                },
            },
            None => SetTransactionState::Partial(StringMap::new()),
        };
        let domain_metadata_state = match domain_metadata {
            Some(values) => match DomainMetadataState::try_complete(values) {
                Ok(complete) => complete,
                Err(e) => {
                    return Err(e);
                },
            },
            None => DomainMetadataState::Partial(StringMap::new()),
        };
        Crc::try_from_parts(
            version,
            metadata,
            protocol,
            file_stats_state,
            in_commit_timestamp_opt,
            set_transaction_state,
            domain_metadata_state,
            None,
            None,
            None,
            None,
            None,
        )
    }

    /// The state that a checksum file for `version` describes, given its fields or the text of the
    /// error of parsing it.
    ///
    /// # Errors
    ///
    /// Where the file could not be parsed, a table cannot have the protocol, or the fields are
    /// invalid.
    pub fn try_from_document<F: TableFormat>(
        format: &F,
        document: Result<CrcRaw, String>,
        version: u64,
    ) -> (res: Result<Self, Error>)
        ensures
            document_state(format, document, version, res),
    {
        match document {
            Err(message) => Err(Error::MalformedJson(message)),
            Ok(raw) => {
                let answer = format.check_protocol(&raw.protocol);
                let ghost answered = answer;
                assert(call_ensures(F::check_protocol, (format, &raw.protocol), answered));
                match answer {
                    Err(refusal) => Err(Error::MalformedJson(refusal.to_text())),
                    Ok(()) => Crc::try_from_raw(format, raw, version),
                }
            },
        }
    }

    /// The state that a checksum file for `version` describes. It is not compared with the log.
    ///
    /// # Errors
    ///
    /// Where counts, statistics, deletion vectors or histograms are invalid, or the fields do not
    /// agree.
    pub fn try_from_raw<F: TableFormat>(format: &F, raw: CrcRaw, version: u64) -> (res: Result<
        Self,
        Error,
    >)
        ensures
            described_state(format, raw.deep_view(), version, res),
    {
        let ghost view = raw.deep_view();
        let file_size_histogram = match de_validated_file_size_histogram(raw.file_size_histogram) {
            Ok(histogram) => histogram,
            Err(e) => {
                return Err(e);
            },
        };
        if let Err(e) = require_one("numMetadata", raw.num_metadata) {
            return Err(e);
        }
        if let Err(e) = require_one("numProtocol", raw.num_protocol) {
            return Err(e);
        }
        if let Err(e) = require_non_negative("numFiles", raw.num_files) {
            return Err(e);
        }
        if let Err(e) = require_non_negative("tableSizeBytes", raw.table_size_bytes) {
            return Err(e);
        }
        let file_stats_state = match FileStats::try_new(
            raw.num_files,
            raw.table_size_bytes,
            file_size_histogram,
        ) {
            Ok(stats) => FileStatsState::Complete(stats),
            Err(e) => {
                return Err(e);
            },
        };
        let set_transaction_state = match raw.set_transactions {
            Some(values) => match SetTransactionState::try_complete(values) {
                Ok(complete) => complete,
                Err(e) => {
                    return Err(e);
                },
            },
            None => SetTransactionState::Partial(StringMap::new()),
        };
        let domain_metadata_state = match raw.domain_metadata {
            Some(values) => match DomainMetadataState::try_complete(values) {
                Ok(complete) => complete,
                Err(e) => {
                    return Err(e);
                },
            },
            None => DomainMetadataState::Partial(StringMap::new()),
        };
        let files = try_into_all_files(format, raw.all_files);
        let ghost files_outcome = files;
        assert(all_files_read(format, view.all_files, files_outcome));
        let all_files = match files {
            Ok(all_files) => all_files,
            Err(e) => {
                return Err(e);
            },
        };
        proof {
            if all_files is Some {
                lemma_adds_read(format, view.all_files->0, all_files->0);
            }
        }
        let deleted_record_counts_histogram_opt = match raw.deleted_record_counts_histogram_opt {
            Some(histogram) => match DeletedRecordCountsHistogram::try_new(
                histogram.deleted_record_counts,
            ) {
                Ok(histogram) => Some(histogram),
                Err(e) => {
                    return Err(e);
                },
            },
            None => None,
        };
        Crc::try_from_parts(
            version,
            raw.metadata,
            raw.protocol,
            file_stats_state,
            raw.in_commit_timestamp_opt,
            set_transaction_state,
            domain_metadata_state,
            raw.txn_id,
            all_files,
            raw.num_deleted_records_opt,
            raw.num_deletion_vectors_opt,
            deleted_record_counts_histogram_opt,
        )
    }
}

} // verus!
