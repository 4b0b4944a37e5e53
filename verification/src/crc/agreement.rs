//! What a consistent checksum state promises of its own fields, said of the fields themselves.

use vstd::prelude::*;

use crate::actions::{Add, AddView};
use crate::crc::checksum;
use crate::crc::checksum::Crc;
use crate::crc::deleted_records;
use crate::crc::file_size_histogram;
use crate::crc::file_size_histogram::FileSizeHistogramView;
use crate::crc::state::{DomainMetadataState, FileStatsState, SetTransactionState};
use crate::crc::sums;
use crate::error::ErrorView;

verus! {

/// The values added up, from the last to the first.
pub open spec fn added_up(values: Seq<i64>) -> int
    decreases values.len(),
{
    if values.len() == 0 {
        0
    } else {
        values[values.len() - 1] + added_up(values.subrange(0, values.len() - 1))
    }
}

/// The bytes of all files together.
pub open spec fn bytes_of(files: Seq<Add>) -> int
    decreases files.len(),
{
    if files.len() == 0 {
        0
    } else {
        files[files.len() - 1].size + bytes_of(files.subrange(0, files.len() - 1))
    }
}

/// The records of a file that its deletion vector deletes.
pub open spec fn deleted_in_file(file: Add) -> int {
    if file.deletion_vector is Some {
        file.deletion_vector->0.cardinality as int
    } else {
        0
    }
}

/// The deleted records of all files together.
pub open spec fn deleted_of(files: Seq<Add>) -> int
    decreases files.len(),
{
    if files.len() == 0 {
        0
    } else {
        deleted_in_file(files[files.len() - 1]) + deleted_of(files.subrange(0, files.len() - 1))
    }
}

/// How many files have a deletion vector.
pub open spec fn vectors_of(files: Seq<Add>) -> int
    decreases files.len(),
{
    if files.len() == 0 {
        0
    } else if files[files.len() - 1].deletion_vector is Some {
        1 + vectors_of(files.subrange(0, files.len() - 1))
    } else {
        vectors_of(files.subrange(0, files.len() - 1))
    }
}

/// Whether `n` is at least `low`, and below `high` where there is one.
pub open spec fn within(n: int, low: int, high: Option<int>) -> bool {
    low <= n && (high is Some ==> n < high->0)
}

/// How many files have a number of deleted records in a range.
pub open spec fn deleted_within(files: Seq<Add>, low: int, high: Option<int>) -> int
    decreases files.len(),
{
    if files.len() == 0 {
        0
    } else if within(deleted_in_file(files[files.len() - 1]), low, high) {
        1 + deleted_within(files.subrange(0, files.len() - 1), low, high)
    } else {
        deleted_within(files.subrange(0, files.len() - 1), low, high)
    }
}

/// How many files have a size in a range.
pub open spec fn sized_within(files: Seq<Add>, low: int, high: Option<int>) -> int
    decreases files.len(),
{
    if files.len() == 0 {
        0
    } else if within(files[files.len() - 1].size as int, low, high) {
        1 + sized_within(files.subrange(0, files.len() - 1), low, high)
    } else {
        sized_within(files.subrange(0, files.len() - 1), low, high)
    }
}

/// The bytes of the files whose size is in a range.
pub open spec fn bytes_within(files: Seq<Add>, low: int, high: Option<int>) -> int
    decreases files.len(),
{
    if files.len() == 0 {
        0
    } else if within(files[files.len() - 1].size as int, low, high) {
        files[files.len() - 1].size + bytes_within(files.subrange(0, files.len() - 1), low, high)
    } else {
        bytes_within(files.subrange(0, files.len() - 1), low, high)
    }
}

/// Where the ranges of the deleted-record histogram begin.
pub open spec fn deleted_range_starts() -> Seq<int> {
    seq![0, 1, 10, 100, 1_000, 10_000, 100_000, 1_000_000, 10_000_000, 2_147_483_647]
}

/// Adding up gives the sum.
pub proof fn lemma_added_up(values: Seq<i64>)
    ensures
        added_up(values) == sums::sum(values),
    decreases values.len(),
{
    if values.len() > 0 {
        assert(values.drop_last() =~= values.subrange(0, values.len() - 1));
        lemma_added_up(values.drop_last());
    }
}

/// The values of the files.
spec fn views(files: Seq<Add>) -> Seq<AddView> {
    files.map_values(|file: Add| file.deep_view())
}

proof fn lemma_views(files: Vec<Add>)
    ensures
        files.deep_view() == views(files@),
{
    assert(files.deep_view() =~= views(files@));
}

proof fn lemma_shorter(files: Seq<Add>)
    requires
        files.len() > 0,
    ensures
        views(files).drop_last() == views(files.subrange(0, files.len() - 1)),
        views(files).last() == files[files.len() - 1].deep_view(),
        checksum::file_sizes(views(files)).drop_last() == checksum::file_sizes(
            views(files.subrange(0, files.len() - 1)),
        ),
        checksum::file_sizes(views(files)).last() == files[files.len() - 1].size,
        checksum::deleted_record_counts(views(files)).drop_last()
            == checksum::deleted_record_counts(views(files.subrange(0, files.len() - 1))),
        checksum::deleted_record_counts(views(files)).last() == deleted_in_file(
            files[files.len() - 1],
        ),
{
    let rest = files.subrange(0, files.len() - 1);
    assert(views(files).drop_last() =~= views(rest));
    assert(checksum::file_sizes(views(files)).drop_last() =~= checksum::file_sizes(views(rest)));
    assert(checksum::deleted_record_counts(views(files)).drop_last()
        =~= checksum::deleted_record_counts(views(rest)));
}

proof fn lemma_totals(files: Seq<Add>)
    ensures
        sums::sum(checksum::file_sizes(views(files))) == bytes_of(files),
        sums::sum(checksum::deleted_record_counts(views(files))) == deleted_of(files),
        checksum::deletion_vector_count(views(files)) == vectors_of(files),
    decreases files.len(),
{
    if files.len() > 0 {
        lemma_shorter(files);
        lemma_totals(files.subrange(0, files.len() - 1));
    }
}

/// The deletion vectors of the files are counted one by one.
pub proof fn lemma_vectors(files: Vec<Add>)
    ensures
        checksum::deletion_vector_count(files.deep_view()) == vectors_of(files@),
{
    lemma_views(files);
    lemma_totals(files@);
}

proof fn lemma_deleted_bin(files: Seq<Add>, bin: int)
    requires
        0 <= bin < 10,
        forall|i: int| 0 <= i < files.len() ==> deleted_in_file(#[trigger] files[i]) >= 0,
    ensures
        deleted_records::bin_count(checksum::deleted_record_counts(views(files)), bin)
            == deleted_within(files, deleted_range_starts()[bin], range_end(bin)),
    decreases files.len(),
{
    if files.len() > 0 {
        let rest = files.subrange(0, files.len() - 1);
        lemma_shorter(files);
        assert forall|i: int| 0 <= i < rest.len() implies deleted_in_file(#[trigger] rest[i]) >= 0 by {
            assert(rest[i] == files[i]);
        }
        lemma_deleted_bin(rest, bin);
        assert(deleted_in_file(files[files.len() - 1]) >= 0);
    }
}

/// Where a range of the deleted-record histogram ends; the last one does not.
pub open spec fn range_end(bin: int) -> Option<int> {
    if bin < 9 {
        Some(deleted_range_starts()[bin + 1])
    } else {
        None
    }
}

/// Where a range of a file-size histogram ends; the last one does not.
pub open spec fn size_range_end(boundaries: Seq<i64>, bin: int) -> Option<int> {
    if bin + 1 < boundaries.len() {
        Some(boundaries[bin + 1] as int)
    } else {
        None
    }
}

proof fn lemma_size_bin(boundaries: Seq<i64>, files: Seq<Add>, bin: int)
    requires
        0 <= bin < boundaries.len(),
    ensures
        file_size_histogram::size_bin_count(
            boundaries,
            bin,
            checksum::file_sizes(views(files)),
        ) == sized_within(files, boundaries[bin] as int, size_range_end(boundaries, bin)),
        file_size_histogram::size_bin_bytes(
            boundaries,
            bin,
            checksum::file_sizes(views(files)),
        ) == bytes_within(files, boundaries[bin] as int, size_range_end(boundaries, bin)),
    decreases files.len(),
{
    if files.len() > 0 {
        lemma_shorter(files);
        lemma_size_bin(boundaries, files.subrange(0, files.len() - 1), bin);
    }
}

proof fn lemma_bin_counts(counts: Seq<i64>, files: Seq<Add>)
    requires
        files.len() <= i64::MAX,
        forall|i: int| 0 <= i < files.len() ==> deleted_in_file(#[trigger] files[i]) >= 0,
    ensures
        counts == deleted_records::bin_counts(checksum::deleted_record_counts(views(files))) <==> {
            &&& counts.len() == 10
            &&& forall|bin: int|
                0 <= bin < 10 ==> (#[trigger] counts[bin]) == deleted_within(
                    files,
                    deleted_range_starts()[bin],
                    range_end(bin),
                )
        },
{
    let deleted = checksum::deleted_record_counts(views(files));
    let expected = deleted_records::bin_counts(deleted);
    assert forall|bin: int| 0 <= bin < 10 implies #[trigger] expected[bin] == deleted_within(
        files,
        deleted_range_starts()[bin],
        range_end(bin),
    ) by {
        deleted_records::lemma_bin_count_bounds(deleted, bin);
        lemma_deleted_bin(files, bin);
    }
    if counts.len() == 10 && forall|bin: int|
        0 <= bin < 10 ==> (#[trigger] counts[bin]) == deleted_within(
            files,
            deleted_range_starts()[bin],
            range_end(bin),
        ) {
        assert forall|bin: int| 0 <= bin < 10 implies counts[bin] == expected[bin] by {
            assert(expected[bin] == deleted_within(
                files,
                deleted_range_starts()[bin],
                range_end(bin),
            ));
        }
        assert(counts =~= expected);
    }
}

proof fn lemma_holds(h: FileSizeHistogramView, files: Seq<Add>)
    ensures
        h.holds(checksum::file_sizes(views(files))) <==> forall|bin: int|
            0 <= bin < h.sorted_bin_boundaries.len() ==> (#[trigger] h.file_counts[bin])
                == sized_within(
                files,
                h.sorted_bin_boundaries[bin] as int,
                size_range_end(h.sorted_bin_boundaries, bin),
            ) && h.total_bytes[bin] == bytes_within(
                files,
                h.sorted_bin_boundaries[bin] as int,
                size_range_end(h.sorted_bin_boundaries, bin),
            ),
{
    assert forall|bin: int|
        0 <= bin < h.sorted_bin_boundaries.len() implies file_size_histogram::size_bin_count(
        h.sorted_bin_boundaries,
        bin,
        checksum::file_sizes(views(files)),
    ) == sized_within(
        files,
        h.sorted_bin_boundaries[bin] as int,
        size_range_end(h.sorted_bin_boundaries, bin),
    ) && file_size_histogram::size_bin_bytes(
        h.sorted_bin_boundaries,
        bin,
        checksum::file_sizes(views(files)),
    ) == #[trigger] bytes_within(
        files,
        h.sorted_bin_boundaries[bin] as int,
        size_range_end(h.sorted_bin_boundaries, bin),
    ) by {
        lemma_size_bin(h.sorted_bin_boundaries, files, bin);
    }
    if h.holds(checksum::file_sizes(views(files))) {
        assert forall|bin: int| 0 <= bin < h.sorted_bin_boundaries.len() implies (
        #[trigger] h.file_counts[bin]) == sized_within(
            files,
            h.sorted_bin_boundaries[bin] as int,
            size_range_end(h.sorted_bin_boundaries, bin),
        ) && h.total_bytes[bin] == bytes_within(
            files,
            h.sorted_bin_boundaries[bin] as int,
            size_range_end(h.sorted_bin_boundaries, bin),
        ) by {
            lemma_size_bin(h.sorted_bin_boundaries, files, bin);
        }
    } else {
        let bin = choose|bin: int|
            0 <= bin < h.sorted_bin_boundaries.len() && !((#[trigger] h.file_counts[bin])
                == file_size_histogram::size_bin_count(
                h.sorted_bin_boundaries,
                bin,
                checksum::file_sizes(views(files)),
            ) && h.total_bytes[bin] == file_size_histogram::size_bin_bytes(
                h.sorted_bin_boundaries,
                bin,
                checksum::file_sizes(views(files)),
            ));
        lemma_size_bin(h.sorted_bin_boundaries, files, bin);
        assert(h.file_counts[bin] == h.file_counts[bin]);
    }
}

/// The files of a state agree with the rest of it exactly where
///
/// - no size and no number of deleted records is negative, and neither total is too large,
/// - known statistics count the files and their bytes, and each size range of their histogram
///   counts the files and the bytes that fall into it,
/// - a recorded number of deletion vectors is the number of files that have one,
/// - a recorded number of deleted records is the sum of the cardinalities, and
/// - each range of a deleted-record histogram counts the files that fall into it.
pub proof fn law_files_agree_exactly(crc: Crc, files: Vec<Add>)
    ensures
        crc.deep_view().files_valid(files.deep_view()) <==> {
            &&& files@.len() <= i64::MAX
            &&& forall|i: int| 0 <= i < files@.len() ==> (#[trigger] files@[i]).size >= 0
            &&& bytes_of(files@) <= i64::MAX
            &&& forall|i: int| 0 <= i < files@.len() ==> deleted_in_file(#[trigger] files@[i]) >= 0
            &&& deleted_of(files@) <= i64::MAX
            &&& crc.file_stats_state matches FileStatsState::Complete(stats) ==> {
                &&& stats.num_files == files@.len()
                &&& stats.table_size_bytes == bytes_of(files@)
                &&& stats.file_size_histogram matches Some(h) ==> forall|bin: int|
                    0 <= bin < h.deep_view().sorted_bin_boundaries.len() ==> (
                    #[trigger] h.deep_view().file_counts[bin]) == sized_within(
                        files@,
                        h.deep_view().sorted_bin_boundaries[bin] as int,
                        size_range_end(h.deep_view().sorted_bin_boundaries, bin),
                    ) && h.deep_view().total_bytes[bin] == bytes_within(
                        files@,
                        h.deep_view().sorted_bin_boundaries[bin] as int,
                        size_range_end(h.deep_view().sorted_bin_boundaries, bin),
                    )
            }
            &&& crc.num_deletion_vectors_opt matches Some(n) ==> n == vectors_of(files@)
            &&& crc.num_deleted_records_opt matches Some(n) ==> n == deleted_of(files@)
            &&& crc.deleted_record_counts_histogram_opt matches Some(h) ==> {
                &&& h.deleted_record_counts@.len() == 10
                &&& forall|bin: int|
                    0 <= bin < 10 ==> (#[trigger] h.deleted_record_counts@[bin]) == deleted_within(
                        files@,
                        deleted_range_starts()[bin],
                        range_end(bin),
                    )
            }
        },
{
    let sizes = checksum::file_sizes(files.deep_view());
    let deleted = checksum::deleted_record_counts(files.deep_view());
    lemma_views(files);
    lemma_totals(files@);
    assert forall|i: int| 0 <= i < files@.len() implies sizes[i] == (#[trigger] files@[i]).size
        && deleted[i] == deleted_in_file(files@[i]) by {
        assert(files.deep_view()[i] == files@[i].deep_view());
    }
    assert(forall|i: int| 0 <= i < sizes.len() ==> #[trigger] sizes[i] == files@[i].size);
    assert(forall|i: int|
        0 <= i < deleted.len() ==> #[trigger] deleted[i] == deleted_in_file(files@[i]));
    if let FileStatsState::Complete(stats) = crc.file_stats_state {
        if let Some(h) = stats.file_size_histogram {
            lemma_holds(h.deep_view(), files@);
        }
    }
    if files@.len() <= i64::MAX && forall|i: int|
        0 <= i < files@.len() ==> deleted_in_file(#[trigger] files@[i]) >= 0 {
        if let Some(h) = crc.deleted_record_counts_histogram_opt {
            lemma_bin_counts(h.deleted_record_counts@, files@);
        }
    }
}

/// Whether In-Commit Timestamps are enabled: the writer features name them and the table property
/// is set.
pub open spec fn timestamps_on(crc: Crc) -> bool {
    &&& crc.protocol.writer_features matches Some(features) && exists|i: int|
        0 <= i < features@.len() && (#[trigger] features@[i])@ == "inCommitTimestamp"@
    &&& crc.metadata.configuration.deep_view().contains_key("delta.enableInCommitTimestamps"@)
    &&& crc.metadata.configuration.deep_view()["delta.enableInCommitTimestamps"@] == "true"@
}

/// A state is consistent exactly where
///
/// - known statistics are not negative, and their histogram adds up to them,
/// - every transaction stands under its application id, and every domain under its name, none of
///   them removed,
/// - recorded numbers of deleted records and of deletion vectors are not negative, there are no
///   more deletion vectors than files, and no deleted records without a deletion vector,
/// - a deleted-record histogram has ten ranges that add up to the number of files,
/// - the files, where they are listed, agree with all of that, and
/// - an in-commit timestamp is there if and only if In-Commit Timestamps are enabled.
pub proof fn law_consistent_exactly(crc: Crc)
    ensures
        crc.deep_view().valid() <==> {
            &&& crc.file_stats_state matches FileStatsState::Complete(stats) ==> {
                &&& stats.num_files >= 0
                &&& stats.table_size_bytes >= 0
                &&& stats.file_size_histogram matches Some(h) ==> {
                    &&& added_up(h.deep_view().file_counts) == stats.num_files
                    &&& added_up(h.deep_view().total_bytes) == stats.table_size_bytes
                    &&& forall|i: int|
                        0 <= i <= h.deep_view().file_counts.len() ==> i64::MIN <= added_up(
                            #[trigger] h.deep_view().file_counts.take(i),
                        ) <= i64::MAX
                    &&& forall|i: int|
                        0 <= i <= h.deep_view().total_bytes.len() ==> i64::MIN <= added_up(
                            #[trigger] h.deep_view().total_bytes.take(i),
                        ) <= i64::MAX
                }
            }
            &&& match crc.set_transaction_state {
                SetTransactionState::Complete(m) => forall|k: Seq<char>| #[trigger]
                    m.deep_view().contains_key(k) ==> m.deep_view()[k].app_id == k,
                SetTransactionState::Partial(m) => forall|k: Seq<char>| #[trigger]
                    m.deep_view().contains_key(k) ==> m.deep_view()[k].app_id == k,
            }
            &&& match crc.domain_metadata_state {
                DomainMetadataState::Complete(m) => forall|k: Seq<char>| #[trigger]
                    m.deep_view().contains_key(k) ==> m.deep_view()[k].domain == k
                        && !m.deep_view()[k].removed,
                DomainMetadataState::Partial(m) => forall|k: Seq<char>| #[trigger]
                    m.deep_view().contains_key(k) ==> m.deep_view()[k].domain == k
                        && !m.deep_view()[k].removed,
            }
            &&& crc.num_deleted_records_opt matches Some(n) ==> n >= 0
            &&& crc.num_deletion_vectors_opt matches Some(n) ==> {
                &&& n >= 0
                &&& crc.file_stats_state matches FileStatsState::Complete(stats) ==> n
                    <= stats.num_files
                &&& n == 0 ==> (crc.num_deleted_records_opt matches Some(deleted) ==> deleted == 0)
            }
            &&& crc.deleted_record_counts_histogram_opt matches Some(h) ==> {
                &&& h.deleted_record_counts@.len() == 10
                &&& forall|bin: int| 0 <= bin < 10 ==> #[trigger] h.deleted_record_counts@[bin] >= 0
                &&& crc.file_stats_state matches FileStatsState::Complete(stats) ==> added_up(
                    h.deleted_record_counts@,
                ) == stats.num_files
            }
            &&& crc.all_files matches Some(files) ==> crc.deep_view().files_valid(
                files.deep_view(),
            )
            &&& crc.in_commit_timestamp_opt is Some <==> timestamps_on(crc)
        },
{
    if let FileStatsState::Complete(stats) = crc.file_stats_state {
        if let Some(h) = stats.file_size_histogram {
            let view = h.deep_view();
            lemma_added_up(view.file_counts);
            lemma_added_up(view.total_bytes);
            assert forall|i: int| 0 <= i <= view.file_counts.len() implies added_up(
                #[trigger] view.file_counts.take(i),
            ) == sums::sum(view.file_counts.take(i)) by {
                lemma_added_up(view.file_counts.take(i));
            }
            assert forall|i: int| 0 <= i <= view.total_bytes.len() implies added_up(
                #[trigger] view.total_bytes.take(i),
            ) == sums::sum(view.total_bytes.take(i)) by {
                lemma_added_up(view.total_bytes.take(i));
            }
        }
    }
    if let Some(h) = crc.deleted_record_counts_histogram_opt {
        lemma_added_up(h.deleted_record_counts@);
    }
    if let Some(features) = crc.protocol.writer_features {
        assert forall|i: int| 0 <= i < features@.len() implies features.deep_view()[i]
            == (#[trigger] features@[i])@ by {}
        if crc.deep_view().protocol.has_table_feature("inCommitTimestamp"@) {
            let i = choose|i: int|
                0 <= i < features.deep_view().len() && features.deep_view()[i]
                    == "inCommitTimestamp"@;
            assert(features@[i]@ == "inCommitTimestamp"@);
        }
        if timestamps_on(crc) {
            let i = choose|i: int|
                0 <= i < features@.len() && (#[trigger] features@[i])@ == "inCommitTimestamp"@;
            assert(features.deep_view()[i] == "inCommitTimestamp"@);
        }
    }
}

/// Whatever is wrong with a state is reported as a plain error with a message.
pub proof fn law_inconsistency_is_a_plain_error(crc: Crc, e: ErrorView)
    requires
        !crc.deep_view().valid(),
        crc.deep_view().reports(e),
    ensures
        e is Generic,
{
}

} // verus!
