//! The state that a version checksum records, and when it is consistent.

use vstd::prelude::*;
use vstd::string::*;

use crate::actions::{Add, AddView, Metadata, MetadataView, Protocol, ProtocolView};
use crate::crc::deleted_records;
use crate::crc::deleted_records::{
    deleted_record_count_bin, DeletedRecordCountsHistogram, DeletedRecordCountsHistogramView,
    NUM_BINS,
};
use crate::crc::file_size_histogram;
use crate::crc::file_stats::{FileStats, FileStatsView};
use crate::crc::state;
use crate::crc::state::{
    validate_domain_metadata_state, validate_set_transaction_state, DomainMetadataState,
    DomainMetadataStateView, FileStatsState, FileStatsStateView, SetTransactionState,
    SetTransactionStateView,
};
use crate::crc::sums;
use crate::crc::sums::checked_sum;
use crate::data::Data;
use crate::error::Error;
use crate::error::ErrorView;
use crate::text;
use crate::text::{around, around_i64, i64_text, join};

verus! {

/// The state of a table at one version, as a checksum file records it.
#[derive(Debug)]
pub struct Crc {
    /// The table version that this state describes.
    pub version: u64,
    /// The table metadata at this version.
    pub metadata: Metadata,
    /// The table protocol at this version.
    pub protocol: Protocol,
    /// What is known of the file-level statistics.
    pub file_stats_state: FileStatsState,
    /// The in-commit timestamp of this version. It is present if and only if in-commit timestamps
    /// are enabled.
    pub in_commit_timestamp_opt: Option<i64>,
    /// What is known of the application transactions. Only complete knowledge is persisted.
    pub set_transaction_state: SetTransactionState,
    /// What is known of the metadata domains. Only complete knowledge is persisted.
    pub domain_metadata_state: DomainMetadataState,
    /// The identifier of the transaction that produced the commit.
    pub txn_id: Option<String>,
    /// Every live data file.
    pub all_files: Option<Vec<Add>>,
    /// The number of records that deletion vectors delete.
    pub num_deleted_records_opt: Option<i64>,
    /// The number of deletion vectors.
    pub num_deletion_vectors_opt: Option<i64>,
    /// The distribution of the deleted-record counts over the files.
    pub deleted_record_counts_histogram_opt: Option<DeletedRecordCountsHistogram>,
}

/// The mathematical value of [`Crc`].
#[verifier::ext_equal]
pub struct CrcView {
    pub version: u64,
    pub metadata: MetadataView,
    pub protocol: ProtocolView,
    pub file_stats_state: FileStatsStateView,
    pub in_commit_timestamp_opt: Option<i64>,
    pub set_transaction_state: SetTransactionStateView,
    pub domain_metadata_state: DomainMetadataStateView,
    pub txn_id: Option<Seq<char>>,
    pub all_files: Option<Seq<AddView>>,
    pub num_deleted_records_opt: Option<i64>,
    pub num_deletion_vectors_opt: Option<i64>,
    pub deleted_record_counts_histogram_opt: Option<DeletedRecordCountsHistogramView>,
}

impl DeepView for Crc {
    type V = CrcView;

    open spec fn deep_view(&self) -> CrcView {
        CrcView {
            version: self.version,
            metadata: self.metadata.deep_view(),
            protocol: self.protocol.deep_view(),
            file_stats_state: self.file_stats_state.deep_view(),
            in_commit_timestamp_opt: self.in_commit_timestamp_opt,
            set_transaction_state: self.set_transaction_state.deep_view(),
            domain_metadata_state: self.domain_metadata_state.deep_view(),
            txn_id: self.txn_id.deep_view(),
            all_files: self.all_files.deep_view(),
            num_deleted_records_opt: self.num_deleted_records_opt,
            num_deletion_vectors_opt: self.num_deletion_vectors_opt,
            deleted_record_counts_histogram_opt:
                self.deleted_record_counts_histogram_opt.deep_view(),
        }
    }
}

impl Data for Crc {
    fn dup(&self) -> (res: Self) {
        Crc {
            version: self.version,
            metadata: self.metadata.dup(),
            protocol: self.protocol.dup(),
            file_stats_state: self.file_stats_state.dup(),
            in_commit_timestamp_opt: self.in_commit_timestamp_opt,
            set_transaction_state: self.set_transaction_state.dup(),
            domain_metadata_state: self.domain_metadata_state.dup(),
            txn_id: self.txn_id.dup(),
            all_files: self.all_files.dup(),
            num_deleted_records_opt: self.num_deleted_records_opt,
            num_deletion_vectors_opt: self.num_deletion_vectors_opt,
            deleted_record_counts_histogram_opt: self.deleted_record_counts_histogram_opt.dup(),
        }
    }

    fn same(&self, other: &Self) -> (res: bool) {
        self.version == other.version
            && self.metadata.same(&other.metadata)
            && self.protocol.same(&other.protocol)
            && self.file_stats_state.same(&other.file_stats_state)
            && self.in_commit_timestamp_opt == other.in_commit_timestamp_opt
            && self.set_transaction_state.same(&other.set_transaction_state)
            && self.domain_metadata_state.same(&other.domain_metadata_state)
            && self.txn_id.same(&other.txn_id)
            && self.all_files.same(&other.all_files)
            && self.num_deleted_records_opt == other.num_deleted_records_opt
            && self.num_deletion_vectors_opt == other.num_deletion_vectors_opt
            && self.deleted_record_counts_histogram_opt.same(&other.deleted_record_counts_histogram_opt)
    }
}

impl Default for Crc {
    /// The state of version zero of a table without files, of which nothing else is known.
    fn default() -> (res: Self)
        ensures
            res.deep_view() == (CrcView {
                version: 0,
                metadata: MetadataView::empty(),
                protocol: ProtocolView::none(),
                file_stats_state: FileStatsStateView::Complete(
                    FileStatsView { num_files: 0, table_size_bytes: 0, file_size_histogram: None },
                ),
                in_commit_timestamp_opt: None,
                set_transaction_state: SetTransactionStateView::Partial(Map::empty()),
                domain_metadata_state: DomainMetadataStateView::Partial(Map::empty()),
                txn_id: None,
                all_files: None,
                num_deleted_records_opt: None,
                num_deletion_vectors_opt: None,
                deleted_record_counts_histogram_opt: None,
            }),
    {
        Crc {
            version: 0,
            metadata: Metadata::default(),
            protocol: Protocol::default(),
            file_stats_state: FileStatsState::default(),
            in_commit_timestamp_opt: None,
            set_transaction_state: SetTransactionState::default(),
            domain_metadata_state: DomainMetadataState::default(),
            txn_id: None,
            all_files: None,
            num_deleted_records_opt: None,
            num_deletion_vectors_opt: None,
            deleted_record_counts_histogram_opt: None,
        }
    }
}

/// The sizes of the files.
pub open spec fn file_sizes(files: Seq<AddView>) -> Seq<i64> {
    files.map_values(|add: AddView| add.size)
}

/// The number of records of a file that are deleted.
pub open spec fn deleted_records_of(add: AddView) -> i64 {
    match add.deletion_vector {
        Some(deletion_vector) => deletion_vector.cardinality,
        None => 0,
    }
}

/// The number of deleted records of each file.
pub open spec fn deleted_record_counts(files: Seq<AddView>) -> Seq<i64> {
    files.map_values(|add: AddView| deleted_records_of(add))
}

/// The number of files with a deletion vector.
pub open spec fn deletion_vector_count(files: Seq<AddView>) -> int
    decreases files.len(),
{
    if files.len() == 0 {
        0
    } else {
        deletion_vector_count(files.drop_last()) + if files.last().deletion_vector is Some {
            1int
        } else {
            0int
        }
    }
}

/// The error for a file whose size is negative.
pub open spec fn negative_size(add: AddView) -> ErrorView {
    ErrorView::Generic(
        "allFiles contains negative file size "@ + text::int_text(add.size as int) + " for "@
            + add.path,
    )
}

/// The error for a deletion vector whose cardinality is negative.
pub open spec fn negative_cardinality(add: AddView) -> ErrorView {
    ErrorView::Generic(
        "allFiles contains a deletion vector with negative cardinality "@ + text::int_text(
            deleted_records_of(add) as int,
        ),
    )
}

/// The error for a count of the files that is not the recorded one.
pub open spec fn count_mismatch(
    what: Seq<char>,
    counted: int,
    name: Seq<char>,
    recorded: i64,
) -> ErrorView {
    ErrorView::Generic(
        "CRC "@ + what + " "@ + text::int_text(counted) + " does not match "@ + name + " "@
            + text::int_text(recorded as int),
    )
}

/// The error for a counter that is negative.
pub open spec fn negative_count(name: Seq<char>, value: i64) -> ErrorView {
    ErrorView::Generic(
        "CRC has invalid "@ + name + ": expected a non-negative value, got "@ + text::int_text(
            value as int,
        ),
    )
}

impl CrcView {
    /// Whether the statistics, where they are known, are consistent.
    pub open spec fn stats_valid(self) -> bool {
        self.file_stats_state matches FileStatsStateView::Complete(stats) ==> stats.valid()
    }

    /// Whether the number of deleted records is not negative.
    pub open spec fn deleted_records_valid(self) -> bool {
        self.num_deleted_records_opt matches Some(n) ==> n >= 0
    }

    /// Whether the number of deletion vectors is neither negative nor more than the files.
    pub open spec fn deletion_vectors_valid(self) -> bool {
        self.num_deletion_vectors_opt matches Some(n) ==> {
            &&& n >= 0
            &&& self.file_stats_state matches FileStatsStateView::Complete(stats) ==> n
                <= stats.num_files
        }
    }

    /// Whether the deleted-record histogram is usable and counts as many files as there are.
    pub open spec fn histogram_valid(self) -> bool {
        self.deleted_record_counts_histogram_opt matches Some(h) ==> {
            &&& deleted_records::deleted_counts_valid(h.deleted_record_counts)
            &&& self.file_stats_state matches FileStatsStateView::Complete(stats) ==> sums::sum(
                h.deleted_record_counts,
            ) == stats.num_files
        }
    }

    /// Whether the files agree with everything that is recorded of them.
    pub open spec fn files_valid(self, files: Seq<AddView>) -> bool {
        &&& files.len() <= i64::MAX
        &&& sums::totals(file_sizes(files))
        &&& self.file_stats_state matches FileStatsStateView::Complete(stats) ==> {
            &&& files.len() == stats.num_files
            &&& sums::sum(file_sizes(files)) == stats.table_size_bytes
            &&& stats.file_size_histogram matches Some(h) ==> h.holds(file_sizes(files))
        }
        &&& sums::totals(deleted_record_counts(files))
        &&& self.num_deletion_vectors_opt matches Some(n) ==> n == deletion_vector_count(files)
        &&& self.num_deleted_records_opt matches Some(n) ==> n == sums::sum(
            deleted_record_counts(files),
        )
        &&& self.deleted_record_counts_histogram_opt matches Some(h) ==> h.deleted_record_counts
            == deleted_records::bin_counts(deleted_record_counts(files))
    }

    /// Whether no record is deleted where there is no deletion vector.
    pub open spec fn deletions_need_vectors(self) -> bool {
        self.num_deletion_vectors_opt == Some(0i64) ==> (self.num_deleted_records_opt matches Some(
            n,
        ) ==> n == 0)
    }

    /// Whether in-commit timestamps are enabled.
    pub open spec fn in_commit_timestamps_enabled(self) -> bool {
        self.protocol.has_table_feature("inCommitTimestamp"@)
            && self.metadata.enables_in_commit_timestamps()
    }

    /// Whether the in-commit timestamp is there exactly where in-commit timestamps are enabled.
    pub open spec fn timestamp_valid(self) -> bool {
        self.in_commit_timestamps_enabled() <==> self.in_commit_timestamp_opt is Some
    }

    /// The error for an in-commit timestamp that is missing, or that should not be there.
    pub open spec fn timestamp_error(self) -> ErrorView {
        if self.in_commit_timestamps_enabled() {
            ErrorView::Generic(
                "CRC for an In-Commit-Timestamp-enabled table is missing inCommitTimestampOpt"@,
            )
        } else {
            ErrorView::Generic(
                "CRC has inCommitTimestampOpt but In-Commit Timestamps are not enabled"@,
            )
        }
    }

    /// Whether the state is consistent.
    pub open spec fn valid(self) -> bool {
        &&& self.stats_valid()
        &&& state::transactions_keyed(self.set_transaction_state.entries())
        &&& state::domains_keyed_and_live(self.domain_metadata_state.entries())
        &&& self.deleted_records_valid()
        &&& self.deletion_vectors_valid()
        &&& self.histogram_valid()
        &&& self.all_files matches Some(files) ==> self.files_valid(files)
        &&& self.deletions_need_vectors()
        &&& self.timestamp_valid()
    }

    /// The error for a number of deletion vectors that is not valid.
    pub open spec fn deletion_vectors_error(self) -> ErrorView {
        let n = self.num_deletion_vectors_opt->0;
        if n < 0 {
            negative_count("numDeletionVectorsOpt"@, n)
        } else {
            ErrorView::Generic(
                "CRC numDeletionVectorsOpt "@ + text::int_text(n as int) + " exceeds numFiles "@
                    + text::int_text(self.file_stats_state->Complete_0.num_files as int),
            )
        }
    }

    /// Whether `e` reports what is wrong with the deleted-record histogram.
    pub open spec fn reports_histogram(self, e: ErrorView) -> bool {
        let counts = self.deleted_record_counts_histogram_opt->0.deleted_record_counts;
        if !deleted_records::deleted_counts_valid(counts) {
            deleted_records::reports_deleted_counts(counts, e)
        } else if !sums::sums_fit(counts) {
            e == sums::sum_overflow("deletedRecordCountsHistogramOpt.deletedRecordCounts"@)
        } else {
            e == count_mismatch(
                "deleted-record histogram file count"@,
                sums::sum(counts),
                "numFiles"@,
                self.file_stats_state->Complete_0.num_files,
            )
        }
    }

    /// Whether `e` reports the first rule that the files break.
    pub open spec fn reports_files(self, files: Seq<AddView>, e: ErrorView) -> bool {
        let sizes = file_sizes(files);
        let deleted = deleted_record_counts(files);
        let stats = self.file_stats_state->Complete_0;
        let known = self.file_stats_state is Complete;
        if files.len() > i64::MAX {
            e == ErrorView::Generic("allFiles length exceeds the supported range"@)
        } else if !sums::totals(sizes) {
            exists|i: int| #[trigger]
                sums::breaks_total(sizes, i) && e == if sizes[i] < 0 {
                    negative_size(files[i])
                } else {
                    ErrorView::Generic("allFiles table size overflow"@)
                }
        } else if known && files.len() != stats.num_files {
            e == count_mismatch(
                "allFiles count"@,
                files.len() as int,
                "numFiles"@,
                stats.num_files,
            )
        } else if known && sums::sum(sizes) != stats.table_size_bytes {
            e == count_mismatch(
                "allFiles byte total"@,
                sums::sum(sizes),
                "tableSizeBytes"@,
                stats.table_size_bytes,
            )
        } else if known && stats.file_size_histogram is Some
            && !stats.file_size_histogram->0.holds(sizes) {
            e == file_size_histogram::files_mismatch()
        } else if !sums::totals(deleted) {
            exists|i: int| #[trigger]
                sums::breaks_total(deleted, i) && e == if deleted[i] < 0 {
                    negative_cardinality(files[i])
                } else {
                    ErrorView::Generic("allFiles deleted-record count overflow"@)
                }
        } else if self.num_deletion_vectors_opt is Some && self.num_deletion_vectors_opt->0
            != deletion_vector_count(files) {
            e == count_mismatch(
                "allFiles deletion-vector count"@,
                deletion_vector_count(files),
                "numDeletionVectorsOpt"@,
                self.num_deletion_vectors_opt->0,
            )
        } else if self.num_deleted_records_opt is Some && self.num_deleted_records_opt->0
            != sums::sum(deleted) {
            e == count_mismatch(
                "allFiles deleted-record count"@,
                sums::sum(deleted),
                "numDeletedRecordsOpt"@,
                self.num_deleted_records_opt->0,
            )
        } else {
            e == ErrorView::Generic(
                "CRC allFiles does not match deletedRecordCountsHistogramOpt"@,
            )
        }
    }

    /// Whether `e` reports the first rule that the state breaks.
    pub open spec fn reports(self, e: ErrorView) -> bool {
        if !self.stats_valid() {
            e == self.file_stats_state->Complete_0.inconsistency()
        } else if !state::transactions_keyed(self.set_transaction_state.entries()) {
            self.set_transaction_state.reports_key(e)
        } else if !state::domains_keyed_and_live(self.domain_metadata_state.entries()) {
            self.domain_metadata_state.reports_entry(e)
        } else if !self.deleted_records_valid() {
            e == negative_count("numDeletedRecordsOpt"@, self.num_deleted_records_opt->0)
        } else if !self.deletion_vectors_valid() {
            e == self.deletion_vectors_error()
        } else if !self.histogram_valid() {
            self.reports_histogram(e)
        } else if self.all_files is Some && !self.files_valid(self.all_files->0) {
            self.reports_files(self.all_files->0, e)
        } else if !self.deletions_need_vectors() {
            e == ErrorView::Generic(
                "CRC numDeletedRecordsOpt must be zero when numDeletionVectorsOpt is zero"@,
            )
        } else {
            e == self.timestamp_error()
        }
    }
}

/// The rules on the files agree: for a consistent state with known statistics, the files count as
/// many and add up to as much as every counter, total and histogram says.
pub proof fn law_files_agree_with_every_record(crc: CrcView, files: Seq<AddView>)
    requires
        crc.valid(),
        crc.all_files == Some(files),
        crc.file_stats_state is Complete,
    ensures
        ({
            let stats = crc.file_stats_state->Complete_0;
            &&& files.len() == stats.num_files
            &&& sums::sum(file_sizes(files)) == stats.table_size_bytes
            &&& stats.file_size_histogram matches Some(h) ==> {
                &&& sums::sum(h.file_counts) == files.len()
                &&& sums::sum(h.total_bytes) == sums::sum(file_sizes(files))
            }
            &&& crc.deleted_record_counts_histogram_opt matches Some(h) ==> sums::sum(
                h.deleted_record_counts,
            ) == files.len()
            &&& 0 <= deletion_vector_count(files) <= files.len()
        }),
{
    lemma_deletion_vector_count(files);
}

/// A consistent state has an in-commit timestamp if and only if in-commit timestamps are enabled.
pub proof fn law_timestamp_iff_enabled(crc: CrcView)
    requires
        crc.valid(),
    ensures
        crc.in_commit_timestamp_opt is Some <==> crc.in_commit_timestamps_enabled(),
{
}

/// A consistent state holds no removed domain, complete or not.
pub proof fn law_no_removed_domain_is_stored(crc: CrcView, domain: Seq<char>)
    requires
        crc.valid(),
        crc.domain_metadata_state.entries().contains_key(domain),
    ensures
        !crc.domain_metadata_state.entries()[domain].removed,
        crc.domain_metadata_state.entries()[domain].domain == domain,
{
}

/// No more files have a deletion vector than there are.
proof fn lemma_deletion_vector_count(files: Seq<AddView>)
    ensures
        0 <= deletion_vector_count(files) <= files.len(),
    decreases files.len(),
{
    if files.len() > 0 {
        lemma_deletion_vector_count(files.drop_last());
    }
}

fn mismatch(what: &str, counted: i64, name: &str, recorded: i64) -> (res: Error)
    ensures
        res.deep_view() == count_mismatch(what@, counted as int, name@, recorded),
{
    let head = around("CRC ", what, " ");
    let head = around_i64(head.as_str(), counted, " does not match ");
    let head = around(head.as_str(), name, " ");
    Error::Generic(join(head.as_str(), i64_text(recorded).as_str()))
}

fn negative(name: &str, value: i64) -> (res: Error)
    ensures
        res.deep_view() == negative_count(name@, value),
{
    let head = around("CRC has invalid ", name, ": expected a non-negative value, got ");
    Error::Generic(join(head.as_str(), i64_text(value).as_str()))
}

fn total_file_size(all_files: &Vec<Add>) -> (res: Result<(i64, Vec<i64>), Error>)
    ensures
        ({
            let files = all_files.deep_view();
            let sizes = file_sizes(files);
            match res {
                Ok((total, list)) => sums::totals(sizes) && total == sums::sum(sizes) && list@ == sizes,
                Err(e) => !sums::totals(sizes) && exists|i: int| #[trigger]
                    sums::breaks_total(sizes, i) && e.deep_view() == if sizes[i] < 0 {
                        negative_size(files[i])
                    } else {
                        ErrorView::Generic("allFiles table size overflow"@)
                    },
            }
        }),
{
    let ghost files = all_files.deep_view();
    let ghost sizes = file_sizes(files);
    let mut total: i64 = 0;
    let mut list: Vec<i64> = Vec::new();
    let mut i: usize = 0;
    assert(sizes.take(0) =~= Seq::empty());
    while i < all_files.len()
        invariant
            i <= all_files@.len(),
            files == all_files.deep_view(),
            sizes == file_sizes(files),
            sizes.len() == all_files@.len(),
            sums::totals(sizes.take(i as int)),
            total == sums::sum(sizes.take(i as int)),
            list@ == sizes.take(i as int),
        decreases all_files@.len() - i,
    {
        let add = &all_files[i];
        proof {
            assert(files[i as int] == add.deep_view());
            assert(sizes[i as int] == add.size);
            sums::lemma_total_step(sizes, i as int);
        }
        if add.size < 0 {
            let head = around_i64("allFiles contains negative file size ", add.size, " for ");
            return Err(Error::Generic(join(head.as_str(), add.path.as_str())));
        }
        match total.checked_add(add.size) {
            Some(next) => {
                total = next;
            },
            None => {
                return Err(Error::Generic(String::from_str("allFiles table size overflow")));
            },
        }
        list.push(add.size);
        assert(list@ =~= sizes.take(i + 1));
        i = i + 1;
    }
    assert(sizes.take(sizes.len() as int) =~= sizes);
    Ok((total, list))
}

/// What the deletion vectors of the files add up to.
struct DeletionTotals {
    vectors: i64,
    records: i64,
    counts: Vec<i64>,
}

fn deletion_totals(all_files: &Vec<Add>) -> (res: Result<DeletionTotals, Error>)
    requires
        all_files@.len() <= i64::MAX,
    ensures
        ({
            let files = all_files.deep_view();
            let deleted = deleted_record_counts(files);
            match res {
                Ok(t) => sums::totals(deleted) && t.vectors == deletion_vector_count(files) && t.records
                    == sums::sum(deleted) && t.counts@ == deleted_records::bin_counts(deleted),
                Err(e) => !sums::totals(deleted) && exists|i: int| #[trigger]
                    sums::breaks_total(deleted, i) && e.deep_view() == if deleted[i] < 0 {
                        negative_cardinality(files[i])
                    } else {
                        ErrorView::Generic("allFiles deleted-record count overflow"@)
                    },
            }
        }),
{
    let ghost files = all_files.deep_view();
    let ghost deleted = deleted_record_counts(files);
    let mut vectors: i64 = 0;
    let mut records: i64 = 0;
    let mut counts: Vec<i64> = vec![0; NUM_BINS];
    let mut i: usize = 0;
    assert(deleted.take(0) =~= Seq::empty());
    assert(files.take(0) =~= Seq::empty());
    while i < all_files.len()
        invariant
            i <= all_files@.len() <= i64::MAX,
            files == all_files.deep_view(),
            files.len() == all_files@.len(),
            deleted == deleted_record_counts(files),
            deleted.len() == all_files@.len(),
            sums::totals(deleted.take(i as int)),
            records == sums::sum(deleted.take(i as int)),
            vectors == deletion_vector_count(files.take(i as int)),
            counts@.len() == NUM_BINS,
            forall|bin: int|
                0 <= bin < NUM_BINS ==> (#[trigger] counts@[bin]) == deleted_records::bin_count(
                    deleted.take(i as int),
                    bin,
                ),
        decreases all_files@.len() - i,
    {
        let add = &all_files[i];
        let ghost seen = deleted.take(i as int);
        let ghost next = deleted.take(i + 1);
        proof {
            assert(files[i as int] == add.deep_view());
            assert(deleted[i as int] == deleted_records_of(add.deep_view()));
            sums::lemma_total_step(deleted, i as int);
            lemma_deletion_vector_count(files.take(i as int));
            assert(files.take(i + 1).drop_last() =~= files.take(i as int));
        }
        let cardinality: i64 = match &add.deletion_vector {
            Some(deletion_vector) => {
                if deletion_vector.cardinality < 0 {
                    return Err(
                        Error::Generic(
                            join(
                                "allFiles contains a deletion vector with negative cardinality ",
                                i64_text(deletion_vector.cardinality).as_str(),
                            ),
                        ),
                    );
                }
                vectors = vectors + 1;
                match records.checked_add(deletion_vector.cardinality) {
                    Some(next_records) => {
                        records = next_records;
                    },
                    None => {
                        return Err(
                            Error::Generic(
                                String::from_str("allFiles deleted-record count overflow"),
                            ),
                        );
                    },
                }
                deletion_vector.cardinality
            },
            None => 0,
        };
        let bin = deleted_record_count_bin(cardinality);
        proof {
            assert(next.drop_last() =~= seen);
            assert(next.last() == cardinality);
            assert(counts@[bin as int] == deleted_records::bin_count(seen, bin as int));
            deleted_records::lemma_bin_count_bounds(seen, bin as int);
            assert forall|b: int| 0 <= b < NUM_BINS implies deleted_records::bin_count(next, b)
                == deleted_records::bin_count(seen, b) + (if b == bin {
                1int
            } else {
                0int
            }) by {
                if deleted_records::in_bin(cardinality as int, b) {
                    deleted_records::law_one_bin(cardinality as int, b, bin as int);
                }
            }
        }
        counts.set(bin, counts[bin] + 1);
        i = i + 1;
    }
    assert(deleted.take(deleted.len() as int) =~= deleted);
    assert(files.take(files.len() as int) =~= files);
    assert(counts@ =~= deleted_records::bin_counts(deleted));
    Ok(DeletionTotals { vectors, records, counts })
}

impl Crc {
    /// The state with these fields.
    ///
    /// # Errors
    ///
    /// Where the fields are not consistent.
    pub fn try_from_parts(
        version: u64,
        metadata: Metadata,
        protocol: Protocol,
        file_stats_state: FileStatsState,
        in_commit_timestamp_opt: Option<i64>,
        set_transaction_state: SetTransactionState,
        domain_metadata_state: DomainMetadataState,
        txn_id: Option<String>,
        all_files: Option<Vec<Add>>,
        num_deleted_records_opt: Option<i64>,
        num_deletion_vectors_opt: Option<i64>,
        deleted_record_counts_histogram_opt: Option<DeletedRecordCountsHistogram>,
    ) -> (res: Result<Self, Error>)
        ensures
            ({
                let view = CrcView {
                    version,
                    metadata: metadata.deep_view(),
                    protocol: protocol.deep_view(),
                    file_stats_state: file_stats_state.deep_view(),
                    in_commit_timestamp_opt,
                    set_transaction_state: set_transaction_state.deep_view(),
                    domain_metadata_state: domain_metadata_state.deep_view(),
                    txn_id: txn_id.deep_view(),
                    all_files: all_files.deep_view(),
                    num_deleted_records_opt,
                    num_deletion_vectors_opt,
                    deleted_record_counts_histogram_opt:
                        deleted_record_counts_histogram_opt.deep_view(),
                };
                match res {
                    Ok(crc) => view.valid() && crc.deep_view() == view,
                    Err(e) => !view.valid() && view.reports(e.deep_view()),
                }
            }),
    {
        let crc = Crc {
            version,
            metadata,
            protocol,
            file_stats_state,
            in_commit_timestamp_opt,
            set_transaction_state,
            domain_metadata_state,
            txn_id,
            all_files,
            num_deleted_records_opt,
            num_deletion_vectors_opt,
            deleted_record_counts_histogram_opt,
        };
        match crc.validate() {
            Ok(()) => Ok(crc),
            Err(e) => Err(e),
        }
    }

    /// The file-level statistics, where they are known. They are not, for example, where the
    /// state was replayed over an operation that does not say what it changed.
    pub fn file_stats(&self) -> (res: Option<&FileStats>)
        ensures
            match self.deep_view().file_stats_state {
                FileStatsStateView::Complete(stats) => res matches Some(s) && s.deep_view()
                    == stats,
                FileStatsStateView::Indeterminate => res is None,
            },
    {
        self.file_stats_state.file_stats()
    }

    /// What is known of the file-level statistics.
    pub fn file_stats_state(&self) -> (res: &FileStatsState)
        ensures
            *res == self.file_stats_state,
    {
        &self.file_stats_state
    }

    /// Checks that the state is consistent.
    pub fn validate(&self) -> (res: Result<(), Error>)
        ensures
            match res {
                Ok(()) => self.deep_view().valid(),
                Err(e) => !self.deep_view().valid() && self.deep_view().reports(e.deep_view()),
            },
    {
        if let FileStatsState::Complete(stats) = &self.file_stats_state {
            if let Err(e) = stats.validate() {
                return Err(e);
            }
        }
        if let Err(e) = validate_set_transaction_state(&self.set_transaction_state) {
            return Err(e);
        }
        if let Err(e) = validate_domain_metadata_state(&self.domain_metadata_state) {
            return Err(e);
        }
        if let Some(value) = self.num_deleted_records_opt {
            if value < 0 {
                return Err(negative("numDeletedRecordsOpt", value));
            }
        }
        if let Err(e) = self.validate_deletion_vector_count() {
            return Err(e);
        }
        if let Err(e) = self.validate_deleted_record_histogram() {
            return Err(e);
        }
        if let Some(all_files) = &self.all_files {
            if let Err(e) = self.validate_all_files(all_files) {
                return Err(e);
            }
        }
        if let Some(vectors) = self.num_deletion_vectors_opt {
            if let Some(records) = self.num_deleted_records_opt {
                if vectors == 0 && records != 0 {
                    return Err(
                        Error::Generic(
                            String::from_str(
                                "CRC numDeletedRecordsOpt must be zero when numDeletionVectorsOpt is zero",
                            ),
                        ),
                    );
                }
            }
        }
        let ict_enabled = self.protocol.has_table_feature("inCommitTimestamp")
            && self.metadata.enables_in_commit_timestamps();
        if ict_enabled && self.in_commit_timestamp_opt.is_none() {
            return Err(
                Error::Generic(
                    String::from_str(
                        "CRC for an In-Commit-Timestamp-enabled table is missing inCommitTimestampOpt",
                    ),
                ),
            );
        }
        if !ict_enabled && self.in_commit_timestamp_opt.is_some() {
            return Err(
                Error::Generic(
                    String::from_str(
                        "CRC has inCommitTimestampOpt but In-Commit Timestamps are not enabled",
                    ),
                ),
            );
        }
        Ok(())
    }

    fn validate_deletion_vector_count(&self) -> (res: Result<(), Error>)
        ensures
            match res {
                Ok(()) => self.deep_view().deletion_vectors_valid(),
                Err(e) => !self.deep_view().deletion_vectors_valid() && e.deep_view()
                    == self.deep_view().deletion_vectors_error(),
            },
    {
        if let Some(value) = self.num_deletion_vectors_opt {
            if value < 0 {
                return Err(negative("numDeletionVectorsOpt", value));
            }
            if let FileStatsState::Complete(stats) = &self.file_stats_state {
                if value > stats.num_files {
                    let head = around_i64(
                        "CRC numDeletionVectorsOpt ",
                        value,
                        " exceeds numFiles ",
                    );
                    return Err(
                        Error::Generic(join(head.as_str(), i64_text(stats.num_files).as_str())),
                    );
                }
            }
        }
        Ok(())
    }

    fn validate_deleted_record_histogram(&self) -> (res: Result<(), Error>)
        ensures
            match res {
                Ok(()) => self.deep_view().histogram_valid(),
                Err(e) => !self.deep_view().histogram_valid() && self.deep_view().reports_histogram(
                    e.deep_view(),
                ),
            },
    {
        if let Some(histogram) = &self.deleted_record_counts_histogram_opt {
            if let Err(e) = histogram.validate() {
                return Err(e);
            }
            let ghost counts = histogram.deep_view().deleted_record_counts;
            proof {
                sums::lemma_sums_fit_of_total(counts);
            }
            if let FileStatsState::Complete(stats) = &self.file_stats_state {
                match checked_sum(
                    "deletedRecordCountsHistogramOpt.deletedRecordCounts",
                    &histogram.deleted_record_counts,
                ) {
                    Ok(files) => {
                        if files != stats.num_files {
                            return Err(
                                mismatch(
                                    "deleted-record histogram file count",
                                    files,
                                    "numFiles",
                                    stats.num_files,
                                ),
                            );
                        }
                    },
                    Err(e) => {
                        return Err(e);
                    },
                }
            }
        }
        Ok(())
    }

    /// Checks the files against everything that is recorded of them.
    pub fn validate_all_files(&self, all_files: &Vec<Add>) -> (res: Result<(), Error>)
        ensures
            match res {
                Ok(()) => self.deep_view().files_valid(all_files.deep_view()),
                Err(e) => !self.deep_view().files_valid(all_files.deep_view())
                    && self.deep_view().reports_files(all_files.deep_view(), e.deep_view()),
            },
    {
        let ghost files = all_files.deep_view();
        if all_files.len() as u64 > i64::MAX as u64 {
            return Err(
                Error::Generic(String::from_str("allFiles length exceeds the supported range")),
            );
        }
        let num_files = all_files.len() as i64;
        let (table_size_bytes, sizes) = match total_file_size(all_files) {
            Ok(total) => total,
            Err(e) => {
                return Err(e);
            },
        };
        if let FileStatsState::Complete(stats) = &self.file_stats_state {
            if num_files != stats.num_files {
                return Err(mismatch("allFiles count", num_files, "numFiles", stats.num_files));
            }
            if table_size_bytes != stats.table_size_bytes {
                return Err(
                    mismatch(
                        "allFiles byte total",
                        table_size_bytes,
                        "tableSizeBytes",
                        stats.table_size_bytes,
                    ),
                );
            }
            if let Some(histogram) = &stats.file_size_histogram {
                if let Err(e) = histogram.validate_file_sizes(&sizes) {
                    return Err(e);
                }
            }
        }
        let deletions = match deletion_totals(all_files) {
            Ok(deletions) => deletions,
            Err(e) => {
                return Err(e);
            },
        };
        if let Some(expected) = self.num_deletion_vectors_opt {
            if deletions.vectors != expected {
                return Err(
                    mismatch(
                        "allFiles deletion-vector count",
                        deletions.vectors,
                        "numDeletionVectorsOpt",
                        expected,
                    ),
                );
            }
        }
        if let Some(expected) = self.num_deleted_records_opt {
            if deletions.records != expected {
                return Err(
                    mismatch(
                        "allFiles deleted-record count",
                        deletions.records,
                        "numDeletedRecordsOpt",
                        expected,
                    ),
                );
            }
        }
        if let Some(expected) = &self.deleted_record_counts_histogram_opt {
            proof {
                file_size_histogram::lemma_plain(deletions.counts);
                file_size_histogram::lemma_plain(expected.deleted_record_counts);
            }
            if !deletions.counts.same(&expected.deleted_record_counts) {
                return Err(
                    Error::Generic(
                        String::from_str(
                            "CRC allFiles does not match deletedRecordCountsHistogramOpt",
                        ),
                    ),
                );
            }
        }
        Ok(())
    }
}

} // verus!
