//! Which fault of a checksum state is reported: the first one in a fixed order, by a message that
//! names it.

use vstd::prelude::*;

use crate::actions::{Add, DomainMetadataView, SetTransaction, SetTransactionView};
use crate::crc::agreement;
use crate::crc::checksum;
use crate::crc::checksum::Crc;
use crate::crc::deleted_records;
use crate::crc::file_size_histogram;
use crate::crc::file_size_histogram::FileSizeHistogramView;
use crate::crc::file_stats::FileStats;
use crate::crc::raw::CrcRaw;
use crate::crc::state;
use crate::crc::state::{DomainMetadataState, FileStatsState, SetTransactionState};
use crate::crc::sums;
use crate::error::ErrorView;
use crate::string_map;
use crate::text;

verus! {

/// Whether the running totals of the values all fit.
pub open spec fn running_totals_fit(values: Seq<i64>) -> bool {
    forall|i: int|
        0 <= i <= values.len() ==> i64::MIN <= agreement::added_up(#[trigger] values.take(i))
            <= i64::MAX
}

/// The error with a message.
pub open spec fn plain(message: Seq<char>) -> ErrorView {
    ErrorView::Generic(message)
}

/// Whether known statistics are not negative and agree with their histogram.
pub open spec fn stats_agree(stats: FileStats) -> bool {
    &&& stats.num_files >= 0
    &&& stats.table_size_bytes >= 0
    &&& stats.file_size_histogram matches Some(h) ==> {
        &&& running_totals_fit(h.deep_view().file_counts)
        &&& agreement::added_up(h.deep_view().file_counts) == stats.num_files
        &&& running_totals_fit(h.deep_view().total_bytes)
        &&& agreement::added_up(h.deep_view().total_bytes) == stats.table_size_bytes
    }
}

/// Whether the statistics, where they are known, agree with themselves.
pub open spec fn known_stats_agree(crc: Crc) -> bool {
    crc.file_stats_state matches FileStatsState::Complete(stats) ==> stats_agree(stats)
}

/// The transactions that are known, by their keys.
pub open spec fn known_transactions(crc: Crc) -> Map<Seq<char>, SetTransactionView> {
    match crc.set_transaction_state {
        SetTransactionState::Complete(m) => m.deep_view(),
        SetTransactionState::Partial(m) => m.deep_view(),
    }
}

/// The domains that are known, by their keys.
pub open spec fn known_domains(crc: Crc) -> Map<Seq<char>, DomainMetadataView> {
    match crc.domain_metadata_state {
        DomainMetadataState::Complete(m) => m.deep_view(),
        DomainMetadataState::Partial(m) => m.deep_view(),
    }
}

/// Whether every transaction stands under its application id.
pub open spec fn transactions_in_place(crc: Crc) -> bool {
    forall|k: Seq<char>| #[trigger]
        known_transactions(crc).contains_key(k) ==> known_transactions(crc)[k].app_id == k
}

/// Whether every domain stands under its name and none is removed.
pub open spec fn domains_in_place(crc: Crc) -> bool {
    forall|k: Seq<char>| #[trigger]
        known_domains(crc).contains_key(k) ==> known_domains(crc)[k].domain == k
            && !known_domains(crc)[k].removed
}

/// Whether the recorded numbers of deletions are in range.
pub open spec fn deletions_in_range(crc: Crc) -> bool {
    &&& crc.num_deleted_records_opt matches Some(n) ==> n >= 0
    &&& crc.num_deletion_vectors_opt matches Some(n) ==> n >= 0 && (
    crc.file_stats_state matches FileStatsState::Complete(stats) ==> n <= stats.num_files)
}

/// Whether a deleted-record histogram has ten ranges, none negative.
pub open spec fn ten_ranges(counts: Seq<i64>) -> bool {
    counts.len() == 10 && forall|bin: int| 0 <= bin < 10 ==> (#[trigger] counts[bin]) >= 0
}

/// Whether a deleted-record histogram counts the files.
pub open spec fn ranges_agree(crc: Crc) -> bool {
    crc.deleted_record_counts_histogram_opt matches Some(h) ==> ten_ranges(
        h.deleted_record_counts@,
    ) && (crc.file_stats_state matches FileStatsState::Complete(stats) ==> agreement::added_up(
        h.deleted_record_counts@,
    ) == stats.num_files)
}

proof fn lemma_running_totals(values: Seq<i64>)
    ensures
        running_totals_fit(values) == sums::sums_fit(values),
        agreement::added_up(values) == sums::sum(values),
{
    agreement::lemma_added_up(values);
    assert forall|i: int| 0 <= i <= values.len() implies agreement::added_up(
        #[trigger] values.take(i),
    ) == sums::sum(values.take(i)) by {
        agreement::lemma_added_up(values.take(i));
    }
}

/// Of statistics that do not agree with themselves the first of these is reported: a negative
/// number of files, a negative number of bytes, counts of the histogram that overflow, counts that
/// do not add up to the number of files, bytes that overflow, and bytes that do not add up.
pub proof fn law_reported_statistics(stats: FileStats)
    requires
        !stats.deep_view().valid(),
    ensures
        ({
            let e = stats.deep_view().inconsistency();
            &&& !stats_agree(stats)
            &&& stats.num_files < 0 ==> e == plain(
                "CRC has invalid numFiles: expected a non-negative value, got "@ + text::int_text(
                    stats.num_files as int,
                ),
            )
            &&& stats.num_files >= 0 && stats.table_size_bytes < 0 ==> e == plain(
                "CRC has invalid tableSizeBytes: expected a non-negative value, got "@
                    + text::int_text(stats.table_size_bytes as int),
            )
            &&& stats.num_files >= 0 && stats.table_size_bytes >= 0 ==> {
                &&& stats.file_size_histogram is Some
                &&& stats.file_size_histogram matches Some(h) ==> {
                    let counts = h.deep_view().file_counts;
                    let bytes = h.deep_view().total_bytes;
                    let counted = running_totals_fit(counts) && agreement::added_up(counts)
                        == stats.num_files;
                    &&& !running_totals_fit(counts) ==> e == plain(
                        "CRC "@ + "fileSizeHistogram.fileCounts"@ + " sum overflow"@,
                    )
                    &&& running_totals_fit(counts) && !counted ==> e == plain(
                        "CRC file-size histogram file count "@ + text::int_text(
                            agreement::added_up(counts),
                        ) + " does not match numFiles "@ + text::int_text(stats.num_files as int),
                    )
                    &&& counted && !running_totals_fit(bytes) ==> e == plain(
                        "CRC "@ + "fileSizeHistogram.totalBytes"@ + " sum overflow"@,
                    )
                    &&& counted && running_totals_fit(bytes) ==> e == plain(
                        "CRC file-size histogram byte total "@ + text::int_text(
                            agreement::added_up(bytes),
                        ) + " does not match tableSizeBytes "@ + text::int_text(
                            stats.table_size_bytes as int,
                        ),
                    )
                }
            }
        }),
{
    if let Some(h) = stats.file_size_histogram {
        lemma_running_totals(h.deep_view().file_counts);
        lemma_running_totals(h.deep_view().total_bytes);
    }
}

/// Of a deleted-record histogram that cannot be used, the wrong number of ranges is reported, or
/// else the first range with a negative count.
pub proof fn law_reported_ranges(counts: Seq<i64>, e: ErrorView)
    requires
        !deleted_records::deleted_counts_valid(counts),
        deleted_records::reports_deleted_counts(counts, e),
    ensures
        !ten_ranges(counts),
        counts.len() != 10 ==> e == plain(
            "deleted-record-count histogram must contain exactly 10 bins, got "@ + text::int_text(
                counts.len() as int,
            ),
        ),
        forall|bin: int|
            counts.len() == 10 && 0 <= bin < 10 && (#[trigger] counts[bin]) < 0 && (forall|b: int|
                0 <= b < bin ==> (#[trigger] counts[b]) >= 0) ==> e == plain(
                "deleted-record-count histogram has negative file count "@ + text::int_text(
                    counts[bin] as int,
                ) + " at bin "@ + text::int_text(bin),
            ),
{
}

/// Whether a bin that both lists of counters have is the first with a negative counter.
pub open spec fn first_negative(h: FileSizeHistogramView, bin: int) -> bool {
    &&& 0 <= bin < h.file_counts.len()
    &&& bin < h.total_bytes.len()
    &&& h.file_counts[bin] < 0 || h.total_bytes[bin] < 0
    &&& forall|b: int|
        0 <= b < bin ==> (#[trigger] h.file_counts[b]) >= 0 && h.total_bytes[b] >= 0
}

/// Of a file-size histogram that cannot be used, the first bin with a negative counter is
/// reported, as far as both lists of counters reach, or else what is wrong with its shape.
pub proof fn law_reported_bins(h: FileSizeHistogramView, e: ErrorView)
    requires
        !h.well_formed() || !h.counts_non_negative(),
        file_size_histogram::reports_histogram(h, e),
    ensures
        forall|bin: int| #[trigger]
            first_negative(h, bin) ==> e == ErrorView::MalformedJson(
                "CRC fileSizeHistogram has negative counts or bytes at bin "@ + text::int_text(bin),
            ),
        (forall|bin: int|
            0 <= bin < h.file_counts.len() && bin < h.total_bytes.len() ==> (
            #[trigger] h.file_counts[bin]) >= 0 && h.total_bytes[bin] >= 0) ==> {
            let starts = h.sorted_bin_boundaries;
            let alike = h.file_counts.len() == starts.len() && h.total_bytes.len() == starts.len();
            &&& starts.len() < 2 ==> e == ErrorView::MalformedJson(
                plain(
                    "sorted_bin_boundaries must have at least 2 elements, got "@ + text::int_text(
                        starts.len() as int,
                    ),
                ).text(),
            )
            &&& starts.len() >= 2 && starts[0] != 0 ==> e == ErrorView::MalformedJson(
                plain(
                    "sorted_bin_boundaries must start with 0, got "@ + text::int_text(
                        starts[0] as int,
                    ),
                ).text(),
            )
            &&& starts.len() >= 2 && starts[0] == 0 && !alike ==> e == ErrorView::MalformedJson(
                plain(
                    "sorted_bin_boundaries, file_counts and total_bytes must have the same length"@,
                ).text(),
            )
            &&& starts.len() >= 2 && starts[0] == 0 && alike ==> e == ErrorView::MalformedJson(
                plain("sorted_bin_boundaries must be strictly ascending"@).text(),
            )
        },
{
    assert forall|bin: int| #[trigger] first_negative(h, bin) implies e
        == ErrorView::MalformedJson(
        "CRC fileSizeHistogram has negative counts or bytes at bin "@ + text::int_text(bin),
    ) by {
        assert(h.negative_at(bin));
        let first = choose|first: int|
            0 <= first < h.counted_bins() && (#[trigger] h.negative_at(first)) && (forall|b: int|
                0 <= b < first ==> !#[trigger] h.negative_at(b)) && e
                == file_size_histogram::negative_counter(first);
        if first < bin {
            assert(h.file_counts[first] >= 0);
        }
    }
    if forall|bin: int|
        0 <= bin < h.file_counts.len() && bin < h.total_bytes.len() ==> (
        #[trigger] h.file_counts[bin]) >= 0 && h.total_bytes[bin] >= 0 {
        assert forall|bin: int| 0 <= bin < h.counted_bins() implies !#[trigger] h.negative_at(
            bin,
        ) by {
            assert(h.file_counts[bin] >= 0);
        }
    }
}

/// Of a state that is not consistent the first of these faults is reported, by a message that names
/// it: the statistics, a transaction under another application id, a domain under another name or a
/// removed one, the recorded numbers of deleted records and of deletion vectors, the deleted-record
/// histogram, the files, deleted records without a deletion vector, and the in-commit timestamp.
pub proof fn law_reported_fault(crc: Crc, e: ErrorView)
    requires
        !crc.deep_view().valid(),
        crc.deep_view().reports(e),
    ensures
        !known_stats_agree(crc) ==> (crc.file_stats_state matches FileStatsState::Complete(stats)
            && e == stats.deep_view().inconsistency()),
        known_stats_agree(crc) && !transactions_in_place(crc) ==> {
            exists|k: Seq<char>| #[trigger]
                known_transactions(crc).contains_key(k) && known_transactions(crc)[k].app_id != k
                    && e == plain(
                    "CRC transaction map key "@ + k + " does not match action application id "@
                        + known_transactions(crc)[k].app_id,
                )
        },
        known_stats_agree(crc) && transactions_in_place(crc) && !domains_in_place(crc) ==> {
            exists|k: Seq<char>| #[trigger]
                known_domains(crc).contains_key(k) && {
                    ||| known_domains(crc)[k].domain != k && e == plain(
                        "CRC domain metadata map key "@ + k + " does not match action domain "@
                            + known_domains(crc)[k].domain,
                    )
                    ||| known_domains(crc)[k].domain == k && known_domains(crc)[k].removed
                        && crc.domain_metadata_state is Complete && e == plain(
                        "complete"@ + " CRC state contains a domain metadata tombstone for "@ + k,
                    )
                    ||| known_domains(crc)[k].domain == k && known_domains(crc)[k].removed
                        && crc.domain_metadata_state is Partial && e == plain(
                        "partial"@ + " CRC state contains a domain metadata tombstone for "@ + k,
                    )
                }
        },
        known_stats_agree(crc) && transactions_in_place(crc) && domains_in_place(crc) ==> {
            &&& (crc.num_deleted_records_opt matches Some(n) && n < 0) ==> e == plain(
                "CRC has invalid "@ + "numDeletedRecordsOpt"@
                    + ": expected a non-negative value, got "@ + text::int_text(
                    crc.num_deleted_records_opt->0 as int,
                ),
            )
            &&& !(crc.num_deleted_records_opt matches Some(n) && n < 0)
                && !deletions_in_range(crc) ==> {
                let n = crc.num_deletion_vectors_opt->0;
                &&& n < 0 ==> e == plain(
                    "CRC has invalid "@ + "numDeletionVectorsOpt"@
                        + ": expected a non-negative value, got "@ + text::int_text(n as int),
                )
                &&& n >= 0 ==> (crc.file_stats_state matches FileStatsState::Complete(stats) && e
                    == plain(
                    "CRC numDeletionVectorsOpt "@ + text::int_text(n as int) + " exceeds numFiles "@
                        + text::int_text(stats.num_files as int),
                ))
            }
        },
        known_stats_agree(crc) && transactions_in_place(crc) && domains_in_place(crc)
            && deletions_in_range(crc) && !ranges_agree(crc) ==> {
            let counts = crc.deleted_record_counts_histogram_opt->0.deleted_record_counts@;
            &&& !ten_ranges(counts) ==> deleted_records::reports_deleted_counts(counts, e)
            &&& ten_ranges(counts) && !running_totals_fit(counts) ==> e == plain(
                "CRC "@ + "deletedRecordCountsHistogramOpt.deletedRecordCounts"@
                    + " sum overflow"@,
            )
            &&& ten_ranges(counts) && running_totals_fit(counts) ==> (
            crc.file_stats_state matches FileStatsState::Complete(stats) && e == plain(
                "CRC "@ + "deleted-record histogram file count"@ + " "@ + text::int_text(
                    agreement::added_up(counts),
                ) + " does not match "@ + "numFiles"@ + " "@ + text::int_text(
                    stats.num_files as int,
                ),
            ))
        },
        known_stats_agree(crc) && transactions_in_place(crc) && domains_in_place(crc)
            && deletions_in_range(crc) && ranges_agree(crc) ==> {
            let files_fail = crc.all_files matches Some(files) && !crc.deep_view().files_valid(
                files.deep_view(),
            );
            let lone_deletions = crc.num_deletion_vectors_opt == Some(0i64) && (
            crc.num_deleted_records_opt matches Some(n) && n != 0);
            &&& files_fail ==> crc.deep_view().reports_files(crc.all_files->0.deep_view(), e)
            &&& !files_fail && lone_deletions ==> e == plain(
                "CRC numDeletedRecordsOpt must be zero when numDeletionVectorsOpt is zero"@,
            )
            &&& !files_fail && !lone_deletions && crc.in_commit_timestamp_opt is None ==> e
                == plain(
                "CRC for an In-Commit-Timestamp-enabled table is missing inCommitTimestampOpt"@,
            )
            &&& !files_fail && !lone_deletions && crc.in_commit_timestamp_opt is Some ==> e
                == plain("CRC has inCommitTimestampOpt but In-Commit Timestamps are not enabled"@)
        },
{
    agreement::law_consistent_exactly(crc);
    assert(known_transactions(crc) == crc.deep_view().set_transaction_state.entries());
    assert(known_domains(crc) == crc.deep_view().domain_metadata_state.entries());
    if let FileStatsState::Complete(stats) = crc.file_stats_state {
        if let Some(h) = stats.file_size_histogram {
            lemma_running_totals(h.deep_view().file_counts);
            lemma_running_totals(h.deep_view().total_bytes);
        }
    }
    if let Some(h) = crc.deleted_record_counts_histogram_opt {
        lemma_running_totals(h.deleted_record_counts@);
    }
}

/// The place of the first file at which the running total of the files fails: its own number is
/// negative, or the total gets too large.
pub open spec fn first_failing(values: Seq<i64>, i: int) -> bool {
    &&& 0 <= i < values.len()
    &&& forall|j: int| 0 <= j < i ==> (#[trigger] values[j]) >= 0
    &&& agreement::added_up(values.take(i)) <= i64::MAX
    &&& values[i] < 0 || agreement::added_up(values.take(i + 1)) > i64::MAX
}

proof fn lemma_first_failing(values: Seq<i64>, i: int)
    requires
        sums::breaks_total(values, i),
    ensures
        first_failing(values, i),
{
    agreement::lemma_added_up(values.take(i));
    agreement::lemma_added_up(values.take(i + 1));
    assert forall|j: int| 0 <= j < i implies (#[trigger] values[j]) >= 0 by {
        assert(values.take(i)[j] == values[j]);
    }
    if values[i] >= 0 {
        assert forall|j: int| 0 <= j < i + 1 implies (#[trigger] values.take(i + 1)[j]) >= 0 by {
            assert(values.take(i + 1)[j] == values[j]);
        }
    }
}

/// Sizes can be counted exactly where there are not too many, none is negative, and together they
/// are not too large.
pub proof fn law_countable_sizes_exactly(sizes: Seq<i64>)
    ensures
        file_size_histogram::sizes_countable(sizes) <==> {
            &&& sizes.len() <= i64::MAX
            &&& forall|i: int| 0 <= i < sizes.len() ==> (#[trigger] sizes[i]) >= 0
            &&& agreement::added_up(sizes) <= i64::MAX
        },
{
    agreement::lemma_added_up(sizes);
}

/// Of sizes that cannot be counted the first one is reported at which counting fails.
pub proof fn law_reported_size(sizes: Seq<i64>, e: ErrorView)
    requires
        !file_size_histogram::sizes_countable(sizes),
        file_size_histogram::reports_sizes(sizes, e),
    ensures
        sizes.len() > i64::MAX ==> e == plain("file size histogram file count overflow"@),
        sizes.len() <= i64::MAX ==> exists|i: int| #[trigger]
            first_failing(sizes, i) && {
                ||| sizes[i] < 0 && e == plain(
                    "file size histogram cannot hold negative file size "@ + text::int_text(
                        sizes[i] as int,
                    ),
                )
                ||| sizes[i] >= 0 && e == plain("file size histogram byte total overflow"@)
            },
{
    if sizes.len() <= i64::MAX {
        let i = choose|i: int| #[trigger]
            sums::breaks_total(sizes, i) && e == if sizes[i] < 0 {
                ErrorView::Generic(
                    "file size histogram cannot hold negative file size "@ + text::int_text(
                        sizes[i] as int,
                    ),
                )
            } else {
                ErrorView::Generic("file size histogram byte total overflow"@)
            };
        lemma_first_failing(sizes, i);
    }
}

/// The sizes of the files.
pub open spec fn sizes_of(files: Seq<Add>) -> Seq<i64> {
    Seq::new(files.len(), |i: int| files[i].size)
}

/// The numbers of deleted records of the files.
pub open spec fn deletions_of(files: Seq<Add>) -> Seq<i64> {
    Seq::new(files.len(), |i: int| agreement::deleted_in_file(files[i]) as i64)
}

/// Whether no value is negative and all of them together are not too large.
pub open spec fn countable(values: Seq<i64>) -> bool {
    &&& forall|i: int| 0 <= i < values.len() ==> (#[trigger] values[i]) >= 0
    &&& agreement::added_up(values) <= i64::MAX
}

/// Two numbers that should be one.
pub open spec fn unequal(
    what: Seq<char>,
    counted: int,
    name: Seq<char>,
    recorded: int,
) -> ErrorView {
    plain(
        "CRC "@ + what + " "@ + text::int_text(counted) + " does not match "@ + name + " "@
            + text::int_text(recorded),
    )
}

/// Of files that do not agree with the rest of a state the first of these faults is reported: too
/// many files, sizes that cannot be counted, the number of files, their bytes, the size ranges,
/// numbers of deleted records that cannot be counted, the number of deletion vectors, the number
/// of deleted records, and the ranges of deleted records.
pub proof fn law_reported_files(crc: Crc, files: Vec<Add>, e: ErrorView)
    requires
        !crc.deep_view().files_valid(files.deep_view()),
        crc.deep_view().reports_files(files.deep_view(), e),
    ensures
        ({
            let sizes = sizes_of(files@);
            let deleted = deletions_of(files@);
            let few = files@.len() <= i64::MAX;
            let sized = few && countable(sizes);
            let counted = sized && (crc.file_stats_state matches FileStatsState::Complete(stats)
                ==> stats.num_files == files@.len());
            let summed = counted && (crc.file_stats_state matches FileStatsState::Complete(stats)
                ==> stats.table_size_bytes == agreement::added_up(sizes));
            let binned = summed && (crc.file_stats_state matches FileStatsState::Complete(stats)
                ==> (stats.file_size_histogram matches Some(h) ==> h.deep_view().holds(sizes)));
            let tallied = binned && countable(deleted);
            let vectored = tallied && (crc.num_deletion_vectors_opt matches Some(n) ==> n
                == agreement::vectors_of(files@));
            let deleted_right = vectored && (crc.num_deleted_records_opt matches Some(n) ==> n
                == agreement::added_up(deleted));
            &&& !few ==> e == plain("allFiles length exceeds the supported range"@)
            &&& few && !sized ==> exists|i: int| #[trigger]
                first_failing(sizes, i) && {
                    ||| sizes[i] < 0 && e == plain(
                        "allFiles contains negative file size "@ + text::int_text(sizes[i] as int)
                            + " for "@ + files@[i].path@,
                    )
                    ||| sizes[i] >= 0 && e == plain("allFiles table size overflow"@)
                }
            &&& sized && !counted ==> (crc.file_stats_state matches FileStatsState::Complete(stats)
                && e == unequal(
                "allFiles count"@,
                files@.len() as int,
                "numFiles"@,
                stats.num_files as int,
            ))
            &&& counted && !summed ==> (crc.file_stats_state matches FileStatsState::Complete(stats)
                && e == unequal(
                "allFiles byte total"@,
                agreement::added_up(sizes),
                "tableSizeBytes"@,
                stats.table_size_bytes as int,
            ))
            &&& summed && !binned ==> e == plain(
                "CRC allFiles does not match fileSizeHistogram"@,
            )
            &&& binned && !tallied ==> exists|i: int| #[trigger]
                first_failing(deleted, i) && {
                    ||| deleted[i] < 0 && e == plain(
                        "allFiles contains a deletion vector with negative cardinality "@
                            + text::int_text(deleted[i] as int),
                    )
                    ||| deleted[i] >= 0 && e == plain("allFiles deleted-record count overflow"@)
                }
            &&& tallied && !vectored ==> e == unequal(
                "allFiles deletion-vector count"@,
                agreement::vectors_of(files@),
                "numDeletionVectorsOpt"@,
                crc.num_deletion_vectors_opt->0 as int,
            )
            &&& vectored && !deleted_right ==> e == unequal(
                "allFiles deleted-record count"@,
                agreement::added_up(deleted),
                "numDeletedRecordsOpt"@,
                crc.num_deleted_records_opt->0 as int,
            )
            &&& deleted_right ==> e == plain(
                "CRC allFiles does not match deletedRecordCountsHistogramOpt"@,
            )
        }),
{
    let view = files.deep_view();
    let sizes = sizes_of(files@);
    let deleted = deletions_of(files@);
    assert(checksum::file_sizes(view) =~= sizes);
    assert(checksum::deleted_record_counts(view) =~= deleted);
    agreement::lemma_added_up(sizes);
    agreement::lemma_added_up(deleted);
    agreement::lemma_vectors(files);
    assert(countable(sizes) == sums::totals(sizes));
    assert(countable(deleted) == sums::totals(deleted));
    if files@.len() <= i64::MAX && !countable(sizes) {
        let i = choose|i: int| #[trigger]
            sums::breaks_total(sizes, i) && e == if sizes[i] < 0 {
                checksum::negative_size(view[i])
            } else {
                ErrorView::Generic("allFiles table size overflow"@)
            };
        lemma_first_failing(sizes, i);
    } else if files@.len() <= i64::MAX && !countable(deleted) && exists|i: int| #[trigger]
        sums::breaks_total(deleted, i) && e == if deleted[i] < 0 {
            checksum::negative_cardinality(view[i])
        } else {
            ErrorView::Generic("allFiles deleted-record count overflow"@)
        } {
        let i = choose|i: int| #[trigger]
            sums::breaks_total(deleted, i) && e == if deleted[i] < 0 {
                checksum::negative_cardinality(view[i])
            } else {
                ErrorView::Generic("allFiles deleted-record count overflow"@)
            };
        lemma_first_failing(deleted, i);
    }
}

/// Of a checksum file whose fields cannot be used the first of these is reported: the file-size
/// histogram, a number of metadata or of protocol actions other than one, a negative number of
/// files or of bytes, statistics that do not agree with their histogram, a second transaction of an
/// application, and a second or a removed domain.
pub proof fn law_reported_field(raw: CrcRaw, e: ErrorView)
    requires
        !raw.deep_view().fields_valid(),
        raw.deep_view().reports_fields(e),
    ensures
        ({
            let unusable = raw.file_size_histogram matches Some(h) && (!h.deep_view().well_formed()
                || !h.deep_view().counts_non_negative());
            let shaped = !unusable;
            let described = shaped && raw.num_metadata == 1;
            let versioned = described && raw.num_protocol == 1;
            let counted = versioned && raw.num_files >= 0;
            let summed = counted && raw.table_size_bytes >= 0;
            let repeated = raw.set_transactions is Some && repeats_application(
                raw.set_transactions->0@,
            );
            &&& unusable ==> file_size_histogram::reports_histogram(
                raw.file_size_histogram->0.deep_view(),
                e,
            )
            &&& shaped && raw.num_metadata != 1 ==> e == plain(
                "CRC file has invalid "@ + "numMetadata"@ + ": expected 1, got "@ + text::int_text(
                    raw.num_metadata as int,
                ),
            )
            &&& described && raw.num_protocol != 1 ==> e == plain(
                "CRC file has invalid "@ + "numProtocol"@ + ": expected 1, got "@ + text::int_text(
                    raw.num_protocol as int,
                ),
            )
            &&& versioned && raw.num_files < 0 ==> e == plain(
                "CRC file has invalid "@ + "numFiles"@ + ": expected a non-negative value, got "@
                    + text::int_text(raw.num_files as int),
            )
            &&& counted && raw.table_size_bytes < 0 ==> e == plain(
                "CRC file has invalid "@ + "tableSizeBytes"@
                    + ": expected a non-negative value, got "@ + text::int_text(
                    raw.table_size_bytes as int,
                ),
            )
            &&& summed && !raw.deep_view().file_stats().valid() ==> e
                == raw.deep_view().file_stats().inconsistency()
            &&& summed && raw.deep_view().file_stats().valid() && repeated ==> second_transaction(
                raw.set_transactions->0.deep_view(),
                e,
            )
            &&& summed && raw.deep_view().file_stats().valid() && !repeated
                ==> raw.domain_metadata is Some && unusable_domain(
                raw.domain_metadata->0.deep_view(),
                e,
            )
        }),
{
    if raw.set_transactions is Some {
        lemma_repeats(raw.set_transactions->0);
        lemma_second_transaction(raw.set_transactions->0.deep_view(), e);
    }
    if raw.domain_metadata is Some {
        lemma_unusable_domain(raw.domain_metadata->0.deep_view(), e);
    }
}

/// Whether two transactions are of one application.
pub open spec fn repeats_application(values: Seq<SetTransaction>) -> bool {
    exists|i: int, j: int|
        0 <= i < j < values.len() && (#[trigger] values[i]).app_id@ == (
        #[trigger] values[j]).app_id@
}

proof fn lemma_repeats(values: Vec<SetTransaction>)
    ensures
        repeats_application(values@) == !string_map::keys_distinct(
            state::keyed_transactions(values.deep_view()),
        ),
{
    let pairs = state::keyed_transactions(values.deep_view());
    assert forall|i: int| 0 <= i < values@.len() implies (#[trigger] pairs[i]).0
        == values@[i].app_id@ by {}
    if repeats_application(values@) {
        let (i, j) = choose|i: int, j: int|
            0 <= i < j < values@.len() && (#[trigger] values@[i]).app_id@ == (
            #[trigger] values@[j]).app_id@;
        assert(pairs[i].0 == pairs[j].0);
    } else {
        assert forall|i: int, j: int| 0 <= i < j < pairs.len() implies (#[trigger] pairs[i]).0 != (
        #[trigger] pairs[j]).0 by {
            assert(values@[i].app_id@ != values@[j].app_id@);
        }
    }
}

/// Whether the error names the application of a transaction that an earlier one has too.
pub open spec fn second_transaction(values: Seq<SetTransactionView>, e: ErrorView) -> bool {
    exists|i: int, j: int|
        0 <= i < j < values.len() && (#[trigger] values[i]).app_id == (#[trigger] values[j]).app_id
            && e == plain(
            "CRC contains a duplicate transaction for application id "@ + values[j].app_id,
        )
}

/// Whether the error names a domain that is removed, or one that an earlier action names too.
pub open spec fn unusable_domain(values: Seq<DomainMetadataView>, e: ErrorView) -> bool {
    ||| exists|i: int|
        0 <= i < values.len() && (#[trigger] values[i]).removed && e == plain(
            "complete"@ + " CRC state contains a domain metadata tombstone for "@
                + values[i].domain,
        )
    ||| exists|i: int, j: int|
        0 <= i < j < values.len() && (#[trigger] values[i]).domain == (#[trigger] values[j]).domain
            && e == plain("CRC contains duplicate domain metadata for "@ + values[j].domain)
}

proof fn lemma_second_transaction(values: Seq<SetTransactionView>, e: ErrorView)
    ensures
        state::reports_duplicate_transaction(values, e) ==> second_transaction(values, e),
{
    if state::reports_duplicate_transaction(values, e) {
        let pairs = state::keyed_transactions(values);
        let j = choose|j: int|
            0 <= j < pairs.len() && string_map::keys_distinct(pairs.take(j))
                && string_map::has_key(pairs.take(j), (#[trigger] pairs[j]).0) && e
                == state::duplicate_transaction(pairs[j].0);
        let i = choose|i: int|
            0 <= i < pairs.take(j).len() && (#[trigger] pairs.take(j)[i]).0 == pairs[j].0;
        assert(pairs[i].0 == values[i].app_id);
        assert(pairs[j].0 == values[j].app_id);
    }
}

proof fn lemma_unusable_domain(values: Seq<DomainMetadataView>, e: ErrorView)
    ensures
        state::reports_domain_action(values, e) ==> unusable_domain(values, e),
{
    if state::reports_domain_action(values, e) {
        let pairs = state::keyed_domains(values);
        let j = choose|j: int|
            0 <= j < values.len() && string_map::keys_distinct(pairs.take(j)) && state::all_live(
                values.take(j),
            ) && (if (#[trigger] values[j]).removed {
                e == state::tombstone("complete"@, values[j].domain)
            } else {
                string_map::has_key(pairs.take(j), values[j].domain) && e
                    == state::duplicate_domain(values[j].domain)
            });
        if !values[j].removed {
            let i = choose|i: int|
                0 <= i < pairs.take(j).len() && (#[trigger] pairs.take(j)[i]).0 == values[j].domain;
            assert(pairs[i].0 == values[i].domain);
        }
    }
}

} // verus!
